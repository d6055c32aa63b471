//! The choice made once at startup: real pins where the platform has them,
//! simulated ones where it has none, and no run at all where claiming the
//! pins went wrong.

use vstd::prelude::*;
use crate::log::Fault;

verus! {

/// What came of asking the platform for the pin controller and the two pins.
#[derive(Clone, Copy, Debug, PartialEq, Eq, Structural)]
pub enum Probe {
    /// Both pins are claimed.
    Claimed,
    /// The platform has no pins to offer.
    Unsupported,
    /// The platform has pins, but the controller or a pin could not be
    /// claimed.
    Failed,
}

/// The pins a run is made on.
#[derive(Clone, Copy, Debug, PartialEq, Eq, Structural)]
pub enum Backend {
    /// The platform's pins.
    Hardware,
    /// A simulated button and a simulated LED.
    Simulated,
}

/// The backend that `probe` leads to, or the fault that ends the run.
pub open spec fn spec_select_backend(probe: Probe) -> Result<Backend, Fault> {
    match probe {
        Probe::Claimed => Ok(Backend::Hardware),
        Probe::Unsupported => Ok(Backend::Simulated),
        Probe::Failed => Err(Fault::PinInit),
    }
}

/// Chooses the pins for the run. A platform without pins is no failure: the
/// run goes on with simulated ones. A claim that failed is fatal.
pub fn select_backend(probe: Probe) -> (choice: Result<Backend, Fault>)
    ensures
        choice == spec_select_backend(probe),
        choice is Err <==> probe == Probe::Failed,
{
    match probe {
        Probe::Claimed => Ok(Backend::Hardware),
        Probe::Unsupported => Ok(Backend::Simulated),
        Probe::Failed => Err(Fault::PinInit),
    }
}

} // verus!
