//! The states of a person in an epidemic.

use vstd::prelude::*;

verus! {

/// Where a person stands with regard to the infection.
#[derive(Clone, Copy, Debug, PartialEq, Eq, Structural)]
pub enum Status {
    /// Not infected
    Susceptible,
    /// Infected but asymptomatic
    Exposed,
    /// Infected and able to infect
    Infectious,
    /// Recovered or dead
    Removed,
}

} // verus!
