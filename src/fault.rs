use vstd::prelude::*;

verus! {

/// Where a fault happened.
#[derive(Clone, Copy, Debug, PartialEq, Eq)]
pub enum FaultSite {
    /// One-time bring-up of the clocks, the timer or the PWM output.
    BringUp,
    /// A register write or the rearm of the alarm inside a tick.
    Tick,
}

/// Whether a fault at `site` halts the system for good. Bring-up resources
/// are load-bearing, so a fault there takes the panic path and stops
/// everything; a fault inside a tick is swallowed, and the LED may just stop
/// animating.
pub fn panic(site: FaultSite) -> (halt: bool)
    ensures
        halt <==> site == FaultSite::BringUp,
{
    match site {
        FaultSite::BringUp => true,
        FaultSite::Tick => false,
    }
}

} // verus!
