//! What holds of every step, whatever the arithmetic: these laws use nothing
//! of the numbers but that each operation is a function of its operands.

use crate::body::Body;
use crate::integrator::Integrator;
use crate::scalar::Scalar;
use crate::vec2::Vec2;
use crate::world::{drift, kick, pull, pull_sum, refreshed_all, stepped};
use vstd::prelude::*;

verus! {

/// The state after `steps` steps of size `dt` under one scheme.
pub open spec fn after<S: Scalar>(
    scheme: Integrator,
    bodies: Seq<Body<S>>,
    g: S,
    dt: S,
    steps: nat,
) -> Seq<Body<S>>
    decreases steps,
{
    if steps == 0 {
        bodies
    } else {
        stepped(scheme, after(scheme, bodies, g, dt, (steps - 1) as nat), g, dt)
    }
}

/// The positions at which a step under `scheme` evaluates the accelerations
/// that it leaves behind: the entry positions for Euler and Runge-Kutta, the
/// drifted positions for leapfrog.
pub open spec fn force_state<S: Scalar>(
    scheme: Integrator,
    bodies: Seq<Body<S>>,
    dt: S,
) -> Seq<Body<S>> {
    match scheme {
        Integrator::Leapfrog => bodies.map_values(|b: Body<S>| kick(b, dt.times(S::ratio(1, 2)))).map_values(
            |b: Body<S>| drift(b, dt),
        ),
        _ => bodies,
    }
}

/// A lone body feels no pull, and in a pair each body feels exactly the pull
/// of the other, added to the zero vector.
pub proof fn small_systems<S: Scalar>(bodies: Seq<Body<S>>, g: S)
    ensures
        bodies.len() == 1 ==> refreshed_all(bodies, g)[0].acceleration == Vec2::<S>::origin(),
        bodies.len() == 2 ==> refreshed_all(bodies, g)[0].acceleration == Vec2::<S>::origin().plus(
            pull(bodies[0], bodies[1], g),
        ),
        bodies.len() == 2 ==> refreshed_all(bodies, g)[1].acceleration == Vec2::<S>::origin().plus(
            pull(bodies[1], bodies[0], g),
        ),
{
    reveal_with_fuel(pull_sum, 3);
}

/// Every scheme leaves in each body the sum of the pulls of all the others,
/// evaluated at the positions of `force_state`. For a lone body that is the
/// zero vector.
pub proof fn acceleration_after_step<S: Scalar>(
    scheme: Integrator,
    bodies: Seq<Body<S>>,
    g: S,
    dt: S,
    i: int,
)
    requires
        0 <= i < bodies.len(),
    ensures
        stepped(scheme, bodies, g, dt)[i].acceleration == pull_sum(
            force_state(scheme, bodies, dt),
            g,
            i,
            bodies.len() as int,
        ),
        bodies.len() == 1 ==> stepped(scheme, bodies, g, dt)[0].acceleration == Vec2::<S>::origin(),
{
    reveal_with_fuel(pull_sum, 2);
}

/// A step neither adds nor removes a body, and leaves every mass as it was.
pub proof fn step_keeps_bodies<S: Scalar>(scheme: Integrator, bodies: Seq<Body<S>>, g: S, dt: S)
    ensures
        stepped(scheme, bodies, g, dt).len() == bodies.len(),
        forall|i: int|
            0 <= i < bodies.len() ==> (#[trigger] stepped(scheme, bodies, g, dt)[i]).mass
                == bodies[i].mass,
{
}

/// The same holds of any number of steps.
pub proof fn run_keeps_bodies<S: Scalar>(
    scheme: Integrator,
    bodies: Seq<Body<S>>,
    g: S,
    dt: S,
    steps: nat,
)
    ensures
        after(scheme, bodies, g, dt, steps).len() == bodies.len(),
        forall|i: int|
            0 <= i < bodies.len() ==> (#[trigger] after(scheme, bodies, g, dt, steps)[i]).mass
                == bodies[i].mass,
    decreases steps,
{
    if steps > 0 {
        let before = after(scheme, bodies, g, dt, (steps - 1) as nat);
        run_keeps_bodies(scheme, bodies, g, dt, (steps - 1) as nat);
        step_keeps_bodies(scheme, before, g, dt);
    }
}

/// Runs are repeatable: from equal states, with equal constant, step size
/// and scheme, any number of steps ends in equal states.
pub proof fn runs_agree<S: Scalar>(
    scheme: Integrator,
    first: Seq<Body<S>>,
    second: Seq<Body<S>>,
    g: S,
    dt: S,
    steps: nat,
)
    requires
        first == second,
    ensures
        after(scheme, first, g, dt, steps) == after(scheme, second, g, dt, steps),
{
}

/// Changing the scheme between two steps changes only which procedure the
/// next step runs: the step after the change is the new scheme's step on the
/// state that the old scheme left, with every body still there.
pub proof fn switch_between_steps<S: Scalar>(
    earlier: Integrator,
    later: Integrator,
    bodies: Seq<Body<S>>,
    g: S,
    dt: S,
)
    ensures
        stepped(later, stepped(earlier, bodies, g, dt), g, dt).len() == bodies.len(),
        stepped(later, after(earlier, bodies, g, dt, 1), g, dt) == stepped(
            later,
            stepped(earlier, bodies, g, dt),
            g,
            dt,
        ),
{
    step_keeps_bodies(earlier, bodies, g, dt);
    step_keeps_bodies(later, stepped(earlier, bodies, g, dt), g, dt);
    reveal_with_fuel(after, 2);
}

} // verus!
