use vstd::prelude::*;
use crate::breath::{clamp_spec, CosineBreath};
use crate::fade::LinearFade;

verus! {

/// The animation state: exactly one waveform policy is active.
#[derive(Clone, Copy, Debug, PartialEq, Eq)]
pub enum AnimationState {
    LinearFade(LinearFade),
    CosineBreath(CosineBreath),
}

impl AnimationState {
    /// The state can take its next tick: a fade is in one of its states, a
    /// breathing wave has room left for its phase.
    pub open spec fn ready(self) -> bool {
        match self {
            AnimationState::LinearFade(f) => f.wf(),
            AnimationState::CosineBreath(b) => b.can_advance_spec(),
        }
    }

    /// The state after a tick on which the cosine sample was `level` (a fade
    /// does not read it).
    pub open spec fn next(self, level: int) -> AnimationState {
        match self {
            AnimationState::LinearFade(f) => AnimationState::LinearFade(f.next()),
            AnimationState::CosineBreath(b) => AnimationState::CosineBreath(b.next()),
        }
    }

    /// The duty applied on a tick on which the cosine sample was `level`.
    pub open spec fn duty_for(self, level: int) -> int {
        match self {
            AnimationState::LinearFade(f) => f.next().duty as int,
            AnimationState::CosineBreath(b) => clamp_spec(level),
        }
    }

    /// The state after one tick per entry of `levels`, in order.
    pub open spec fn after_levels(self, levels: Seq<int>) -> AnimationState
        decreases levels.len(),
    {
        if levels.len() == 0 {
            self
        } else {
            self.after_levels(levels.drop_last()).next(levels.last())
        }
    }

    /// The duties applied over one tick per entry of `levels`, in order.
    pub open spec fn duties(self, levels: Seq<int>) -> Seq<int>
        decreases levels.len(),
    {
        if levels.len() == 0 {
            Seq::empty()
        } else {
            let prev = levels.drop_last();
            self.duties(prev).push(self.after_levels(prev).duty_for(levels.last()))
        }
    }

    /// Whether the next tick can be taken.
    pub fn can_tick(&self) -> (r: bool)
        ensures
            r == self.ready(),
    {
        match self {
            AnimationState::LinearFade(f) => f.is_valid(),
            AnimationState::CosineBreath(b) => b.can_advance(),
        }
    }

    /// Advances the active policy by one tick and returns the duty to apply.
    /// `level` is the rounded cosine sample for a breathing wave; a fade
    /// ignores it.
    pub fn tick(&mut self, level: i64) -> (d: u8)
        requires
            old(self).ready(),
        ensures
            *final(self) == old(self).next(level as int),
            d as int == old(self).duty_for(level as int),
            d <= 100,
            (*old(self) is LinearFade) ==> final(self).ready(),
    {
        match self {
            AnimationState::LinearFade(f) => f.tick(),
            AnimationState::CosineBreath(b) => b.tick(level),
        }
    }
}

/// Runs one tick per entry of `levels` and returns the duties applied, in
/// order. Stops early, with the duties so far, if the state cannot take the
/// next tick.
pub fn run_ticks(state: &mut AnimationState, levels: &Vec<i64>) -> (out: Vec<u8>)
    ensures
        out@.len() <= levels@.len(),
        ({
            let ls = levels@.take(out@.len() as int).map_values(|l: i64| l as int);
            &&& *final(state) == old(state).after_levels(ls)
            &&& out@.map_values(|d: u8| d as int) == old(state).duties(ls)
        }),
        out@.len() < levels@.len() ==> !final(state).ready(),
{
    let ghost start = *state;
    let mut out: Vec<u8> = Vec::new();
    let mut i: usize = 0;
    while i < levels.len()
        invariant
            i <= levels@.len(),
            out@.len() == i,
            ({
                let ls = levels@.take(i as int).map_values(|l: i64| l as int);
                &&& *state == start.after_levels(ls)
                &&& out@.map_values(|d: u8| d as int) == start.duties(ls)
            }),
        ensures
            i <= levels@.len(),
            out@.len() == i,
            ({
                let ls = levels@.take(i as int).map_values(|l: i64| l as int);
                &&& *state == start.after_levels(ls)
                &&& out@.map_values(|d: u8| d as int) == start.duties(ls)
            }),
            i < levels@.len() ==> !state.ready(),
        decreases levels@.len() - i,
    {
        if !state.can_tick() {
            break;
        }
        let ghost before = *state;
        let ghost prev = levels@.take(i as int).map_values(|l: i64| l as int);
        let d = state.tick(levels[i]);
        out.push(d);
        i = i + 1;
        proof {
            let ls = levels@.take(i as int).map_values(|l: i64| l as int);
            assert(ls.drop_last() =~= prev);
            assert(out@.map_values(|d: u8| d as int) =~= start.duties(prev).push(d as int));
        }
    }
    out
}

/// Ticks are deterministic: from equal states, equal sequences of cosine
/// samples give equal states and equal duties.
pub proof fn lemma_deterministic(a: AnimationState, b: AnimationState, la: Seq<int>, lb: Seq<int>)
    requires
        a == b,
        la == lb,
    ensures
        a.after_levels(la) == b.after_levels(lb),
        a.duties(la) == b.duties(lb),
{
}

} // verus!
