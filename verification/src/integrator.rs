//! The choice of integration scheme and how key presses change it.

use vstd::prelude::*;

verus! {

/// The numerical scheme that advances every body by one time step.
///
/// The set is closed: the stepping routine dispatches on the variant.
#[derive(Debug, Clone, Copy, PartialEq, Eq, Structural)]
pub enum Integrator {
    /// Explicit first-order Euler: one force evaluation, then drift and kick.
    Euler,
    /// Kick-drift-kick leapfrog, the scheme a new world starts with.
    Leapfrog,
    /// Classical fourth-order Runge-Kutta with four force evaluations.
    RK4,
}

/// The scheme in force after one poll of the three selection keys.
///
/// A pressed key selects its scheme; when several are down at once the
/// Runge-Kutta key wins over the leapfrog key, which wins over the Euler key.
/// With no key down the current scheme stays.
pub open spec fn selection(current: Integrator, euler: bool, leapfrog: bool, rk4: bool) -> Integrator {
    if rk4 {
        Integrator::RK4
    } else if leapfrog {
        Integrator::Leapfrog
    } else if euler {
        Integrator::Euler
    } else {
        current
    }
}

impl Integrator {
    /// Applies one poll of the selection keys to the current scheme.
    ///
    /// The keys are looked at in the order Euler, leapfrog, Runge-Kutta, each
    /// pressed one overriding what came before.
    pub fn select(self, euler: bool, leapfrog: bool, rk4: bool) -> (next: Integrator)
        ensures
            next == selection(self, euler, leapfrog, rk4),
    {
        let mut next = self;
        if euler {
            next = Integrator::Euler;
        }
        if leapfrog {
            next = Integrator::Leapfrog;
        }
        if rk4 {
            next = Integrator::RK4;
        }
        next
    }
}

impl Default for Integrator {
    /// Leapfrog: it keeps the energy of long runs far better than Euler at the
    /// same cost per step.
    fn default() -> (scheme: Integrator)
        ensures
            scheme == Integrator::Leapfrog,
    {
        Integrator::Leapfrog
    }
}

/// Polling is idempotent and changes nothing while no key is down: with every
/// key up the scheme is the one that was in force, the same keys applied twice
/// select what they select once, and as soon as any key is down the outcome no
/// longer depends on the scheme that was in force.
pub proof fn selection_is_stable(current: Integrator, euler: bool, leapfrog: bool, rk4: bool)
    ensures
        selection(current, false, false, false) == current,
        selection(selection(current, euler, leapfrog, rk4), euler, leapfrog, rk4) == selection(
            current,
            euler,
            leapfrog,
            rk4,
        ),
        (euler || leapfrog || rk4) ==> selection(current, euler, leapfrog, rk4) == selection(
            Integrator::Euler,
            euler,
            leapfrog,
            rk4,
        ),
{
}

} // verus!
