//! Items specific to running on a hosted ("native") platform, where no real
//! peripherals exist.

use vstd::prelude::*;

verus! {

/// The (empty) set of peripherals a hosted platform offers.
pub struct OptionalPeripherals {}

/// The software interrupt used to drive the executor on this platform.
pub struct SWI {}

/// Initializes the platform and hands out its peripherals.
pub fn init() -> (r: OptionalPeripherals)
    ensures
        r == (OptionalPeripherals {  }),
{
    OptionalPeripherals {  }
}

} // verus!
