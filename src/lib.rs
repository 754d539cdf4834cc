//! Duty-cycle scheduling for a single PWM-driven LED.
//!
//! The library holds the animation state machines (a linear triangle fade and
//! a cosine breathing wave), the exclusive-access slot that the periodic tick
//! handler works on, and the planning of each tick: which duty to apply and
//! when the alarm fires next.
pub mod breath;
pub mod fade;
pub mod fault;
pub mod schedule;
pub mod state;
pub mod store;

pub use fade::{fade_wf, LinearFade, MAX_DUTY};
pub use breath::{clamp_duty, clamp_spec, CosineBreath, DEFAULT_STEP, PHASE_PERIOD, PHASE_SCALE};
pub use state::{run_ticks, AnimationState};
pub use schedule::{deadline_spec, ScheduledOutput, TickPlan};
pub use store::SharedCell;
pub use fault::FaultSite;
