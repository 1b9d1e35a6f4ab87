//! The simulated system: its bodies, the gravitational constant and the
//! active scheme, with force accumulation, the three stepping procedures and
//! the energy diagnostic.

use crate::body::Body;
use crate::integrator::Integrator;
use crate::scalar::Scalar;
use crate::vec2::Vec2;
use vstd::prelude::*;

verus! {

/// The acceleration that `from` causes on `on`: the separation `p_from - p_on`
/// times `g * m_from / d^3`, where `d` is the length of the separation plus
/// the softening constant one millionth, and the cube is `(d * d) * d`.
pub open spec fn pull<S: Scalar>(on: Body<S>, from: Body<S>, g: S) -> Vec2<S> {
    let r = from.position.minus(on.position);
    let dist = r.norm().plus(S::ratio(1, 1000000));
    r.times(g.times(from.mass).over(dist.times(dist).times(dist)))
}

/// The pulls on body `i` from the bodies before index `upto`, added up from
/// the zero vector in index order, body `i` itself left out.
pub open spec fn pull_sum<S: Scalar>(bodies: Seq<Body<S>>, g: S, i: int, upto: int) -> Vec2<S>
    decreases upto,
{
    if upto <= 0 {
        Vec2::origin()
    } else if upto - 1 == i {
        pull_sum(bodies, g, i, upto - 1)
    } else {
        pull_sum(bodies, g, i, upto - 1).plus(pull(bodies[i], bodies[upto - 1], g))
    }
}

/// Every body with its acceleration overwritten by the sum of the pulls from
/// all the others at their current positions. Nothing else changes.
pub open spec fn refreshed_all<S: Scalar>(bodies: Seq<Body<S>>, g: S) -> Seq<Body<S>> {
    Seq::new(
        bodies.len(),
        |i: int|
            Body {
                mass: bodies[i].mass,
                position: bodies[i].position,
                velocity: bodies[i].velocity,
                acceleration: pull_sum(bodies, g, i, bodies.len() as int),
            },
    )
}

/// Velocity advanced by the stored acceleration over `h`.
pub open spec fn kick<S: Scalar>(b: Body<S>, h: S) -> Body<S> {
    Body {
        mass: b.mass,
        position: b.position,
        velocity: b.velocity.plus(b.acceleration.times(h)),
        acceleration: b.acceleration,
    }
}

/// Position advanced by the stored velocity over `h`.
pub open spec fn drift<S: Scalar>(b: Body<S>, h: S) -> Body<S> {
    Body {
        mass: b.mass,
        position: b.position.plus(b.velocity.times(h)),
        velocity: b.velocity,
        acceleration: b.acceleration,
    }
}

/// One explicit Euler update of a body: both the position and the velocity
/// are advanced from the values held before the update.
pub open spec fn euler_one<S: Scalar>(b: Body<S>, dt: S) -> Body<S> {
    Body {
        mass: b.mass,
        position: b.position.plus(b.velocity.times(dt)),
        velocity: b.velocity.plus(b.acceleration.times(dt)),
        acceleration: b.acceleration,
    }
}

/// A body moved along the rate `k = (velocity, acceleration)` over `h`.
pub open spec fn advance<S: Scalar>(b: Body<S>, k: (Vec2<S>, Vec2<S>), h: S) -> Body<S> {
    Body {
        mass: b.mass,
        position: b.position.plus(k.0.times(h)),
        velocity: b.velocity.plus(k.1.times(h)),
        acceleration: b.acceleration,
    }
}

/// The four stage rates blended as `((k1 + 2*k2) + 2*k3) + k4`.
pub open spec fn blend<S: Scalar>(k1: Vec2<S>, k2: Vec2<S>, k3: Vec2<S>, k4: Vec2<S>) -> Vec2<S> {
    k1.plus(k2.times(S::ratio(2, 1))).plus(k3.times(S::ratio(2, 1))).plus(k4)
}

/// The rate `(velocity, acceleration)` of every body.
pub open spec fn rates_of<S: Scalar>(bodies: Seq<Body<S>>) -> Seq<(Vec2<S>, Vec2<S>)> {
    bodies.map_values(|b: Body<S>| (b.velocity, b.acceleration))
}

/// Every body of `base` moved along its own entry of `k` over `h`.
pub open spec fn advanced_all<S: Scalar>(
    base: Seq<Body<S>>,
    k: Seq<(Vec2<S>, Vec2<S>)>,
    h: S,
) -> Seq<Body<S>> {
    Seq::new(base.len(), |i: int| advance(base[i], k[i], h))
}

/// One Euler step: accelerations from the current positions, then every body
/// updated by `euler_one`.
pub open spec fn euler_all<S: Scalar>(bodies: Seq<Body<S>>, g: S, dt: S) -> Seq<Body<S>> {
    refreshed_all(bodies, g).map_values(|b: Body<S>| euler_one(b, dt))
}

/// One leapfrog step: a half-kick with the accelerations that were stored on
/// entry, a full drift with the kicked velocities, accelerations from the new
/// positions, and a half-kick with those. The half step is `dt * (1/2)`.
pub open spec fn leapfrog_all<S: Scalar>(bodies: Seq<Body<S>>, g: S, dt: S) -> Seq<Body<S>> {
    let half = dt.times(S::ratio(1, 2));
    let kicked = bodies.map_values(|b: Body<S>| kick(b, half));
    let drifted = kicked.map_values(|b: Body<S>| drift(b, dt));
    refreshed_all(drifted, g).map_values(|b: Body<S>| kick(b, half))
}

/// The rates seen after the bodies of `base` have been moved along `k` over
/// `h` and the accelerations recomputed there.
pub open spec fn stage<S: Scalar>(
    base: Seq<Body<S>>,
    g: S,
    k: Seq<(Vec2<S>, Vec2<S>)>,
    h: S,
) -> Seq<(Vec2<S>, Vec2<S>)> {
    rates_of(refreshed_all(advanced_all(base, k, h), g))
}

/// One classical Runge-Kutta step. The base state is the entry state with its
/// accelerations recomputed; every stage starts from that base, never from
/// another stage; the result is the base moved along the blend of the four
/// stage rates over `dt / 6`. The acceleration left in each body is the one
/// computed at the entry positions.
pub open spec fn rk4_all<S: Scalar>(bodies: Seq<Body<S>>, g: S, dt: S) -> Seq<Body<S>> {
    let half = dt.times(S::ratio(1, 2));
    let base = refreshed_all(bodies, g);
    let k1 = rates_of(base);
    let k2 = stage(base, g, k1, half);
    let k3 = stage(base, g, k2, half);
    let k4 = stage(base, g, k3, dt);
    Seq::new(
        base.len(),
        |i: int|
            advance(
                base[i],
                (blend(k1[i].0, k2[i].0, k3[i].0, k4[i].0), blend(k1[i].1, k2[i].1, k3[i].1, k4[i].1)),
                dt.over(S::ratio(6, 1)),
            ),
    )
}

/// One step under `scheme`.
pub open spec fn stepped<S: Scalar>(
    scheme: Integrator,
    bodies: Seq<Body<S>>,
    g: S,
    dt: S,
) -> Seq<Body<S>> {
    match scheme {
        Integrator::Euler => euler_all(bodies, g, dt),
        Integrator::Leapfrog => leapfrog_all(bodies, g, dt),
        Integrator::RK4 => rk4_all(bodies, g, dt),
    }
}

/// The kinetic terms `((1/2) * m) * (|v| * |v|)` of the bodies before index
/// `upto`, added up from zero in index order.
pub open spec fn kinetic_sum<S: Scalar>(bodies: Seq<Body<S>>, upto: int) -> S
    decreases upto,
{
    if upto <= 0 {
        S::ratio(0, 1)
    } else {
        let b = bodies[upto - 1];
        let speed = b.velocity.norm();
        kinetic_sum(bodies, upto - 1).plus(S::ratio(1, 2).times(b.mass).times(speed.times(speed)))
    }
}

/// The potential term of one pair: `((g * m_a) * m_b) / |p_a - p_b|`, with no
/// softening.
pub open spec fn pair_term<S: Scalar>(a: Body<S>, b: Body<S>, g: S) -> S {
    g.times(a.mass).times(b.mass).over(a.position.minus(b.position).norm())
}

/// `start` less the pair terms of body `i` with each later body before index
/// `upto`, taken off in index order.
pub open spec fn row_sum<S: Scalar>(bodies: Seq<Body<S>>, g: S, start: S, i: int, upto: int) -> S
    decreases upto - i,
{
    if upto <= i + 1 {
        start
    } else {
        row_sum(bodies, g, start, i, upto - 1).minus(pair_term(bodies[i], bodies[upto - 1], g))
    }
}

/// Zero less the pair terms of every pair `i < j` with `i` before `rows`,
/// each pair once, in the order of `i` and then of `j`.
pub open spec fn potential_sum<S: Scalar>(bodies: Seq<Body<S>>, g: S, rows: int) -> S
    decreases rows,
{
    if rows <= 0 {
        S::ratio(0, 1)
    } else {
        row_sum(bodies, g, potential_sum(bodies, g, rows - 1), rows - 1, bodies.len() as int)
    }
}

/// Total mechanical energy: the kinetic sum plus the potential sum.
pub open spec fn energy_of<S: Scalar>(bodies: Seq<Body<S>>, g: S) -> S {
    kinetic_sum(bodies, bodies.len() as int).plus(potential_sum(bodies, g, bodies.len() as int))
}

fn refreshed<S: Scalar>(bodies: &Vec<Body<S>>, g: S) -> (out: Vec<Body<S>>)
    ensures
        out@ == refreshed_all(bodies@, g),
{
    let n: usize = bodies.len();
    let mut out: Vec<Body<S>> = Vec::new();
    let mut i: usize = 0;
    while i < n
        invariant
            n == bodies@.len(),
            i <= n,
            out@.len() == i,
            forall|k: int| 0 <= k < i ==> out@[k] == refreshed_all(bodies@, g)[k],
        decreases n - i,
    {
        let mut acc: Vec2<S> = Vec2::zero();
        let mut j: usize = 0;
        while j < n
            invariant
                n == bodies@.len(),
                i < n,
                j <= n,
                acc == pull_sum(bodies@, g, i as int, j as int),
            decreases n - j,
        {
            if j != i {
                let r = bodies[j].position.sub(bodies[i].position);
                let dist = r.length().sum(S::of_ratio(1, 1000000));
                acc = acc.add(r.mul(g.product(bodies[j].mass).quotient(dist.product(dist).product(dist))));
            }
            j += 1;
        }
        let b = bodies[i];
        out.push(Body { mass: b.mass, position: b.position, velocity: b.velocity, acceleration: acc });
        i += 1;
    }
    assert(out@ =~= refreshed_all(bodies@, g));
    out
}

fn kicked<S: Scalar>(bodies: &Vec<Body<S>>, h: S) -> (out: Vec<Body<S>>)
    ensures
        out@ == bodies@.map_values(|b: Body<S>| kick(b, h)),
{
    let n: usize = bodies.len();
    let mut out: Vec<Body<S>> = Vec::new();
    let mut i: usize = 0;
    while i < n
        invariant
            n == bodies@.len(),
            i <= n,
            out@.len() == i,
            forall|k: int| 0 <= k < i ==> out@[k] == kick(bodies@[k], h),
        decreases n - i,
    {
        let b = bodies[i];
        out.push(
            Body {
                mass: b.mass,
                position: b.position,
                velocity: b.velocity.add(b.acceleration.mul(h)),
                acceleration: b.acceleration,
            },
        );
        i += 1;
    }
    assert(out@ =~= bodies@.map_values(|b: Body<S>| kick(b, h)));
    out
}

fn drifted<S: Scalar>(bodies: &Vec<Body<S>>, h: S) -> (out: Vec<Body<S>>)
    ensures
        out@ == bodies@.map_values(|b: Body<S>| drift(b, h)),
{
    let n: usize = bodies.len();
    let mut out: Vec<Body<S>> = Vec::new();
    let mut i: usize = 0;
    while i < n
        invariant
            n == bodies@.len(),
            i <= n,
            out@.len() == i,
            forall|k: int| 0 <= k < i ==> out@[k] == drift(bodies@[k], h),
        decreases n - i,
    {
        let b = bodies[i];
        out.push(
            Body {
                mass: b.mass,
                position: b.position.add(b.velocity.mul(h)),
                velocity: b.velocity,
                acceleration: b.acceleration,
            },
        );
        i += 1;
    }
    assert(out@ =~= bodies@.map_values(|b: Body<S>| drift(b, h)));
    out
}

fn rates<S: Scalar>(bodies: &Vec<Body<S>>) -> (out: Vec<(Vec2<S>, Vec2<S>)>)
    ensures
        out@ == rates_of(bodies@),
{
    let n: usize = bodies.len();
    let mut out: Vec<(Vec2<S>, Vec2<S>)> = Vec::new();
    let mut i: usize = 0;
    while i < n
        invariant
            n == bodies@.len(),
            i <= n,
            out@.len() == i,
            forall|k: int| 0 <= k < i ==> out@[k] == (bodies@[k].velocity, bodies@[k].acceleration),
        decreases n - i,
    {
        let b = bodies[i];
        out.push((b.velocity, b.acceleration));
        i += 1;
    }
    assert(out@ =~= rates_of(bodies@));
    out
}

fn advanced<S: Scalar>(base: &Vec<Body<S>>, k: &Vec<(Vec2<S>, Vec2<S>)>, h: S) -> (out: Vec<Body<S>>)
    requires
        k@.len() == base@.len(),
    ensures
        out@ == advanced_all(base@, k@, h),
{
    let n: usize = base.len();
    let mut out: Vec<Body<S>> = Vec::new();
    let mut i: usize = 0;
    while i < n
        invariant
            n == base@.len(),
            n == k@.len(),
            i <= n,
            out@.len() == i,
            forall|m: int| 0 <= m < i ==> out@[m] == advance(base@[m], k@[m], h),
        decreases n - i,
    {
        let b = base[i];
        let rate = k[i];
        out.push(
            Body {
                mass: b.mass,
                position: b.position.add(rate.0.mul(h)),
                velocity: b.velocity.add(rate.1.mul(h)),
                acceleration: b.acceleration,
            },
        );
        i += 1;
    }
    assert(out@ =~= advanced_all(base@, k@, h));
    out
}

fn blended<S: Scalar>(k1: Vec2<S>, k2: Vec2<S>, k3: Vec2<S>, k4: Vec2<S>) -> (v: Vec2<S>)
    ensures
        v == blend(k1, k2, k3, k4),
{
    k1.add(k2.mul(S::of_ratio(2, 1))).add(k3.mul(S::of_ratio(2, 1))).add(k4)
}

/// The complete simulated system.
pub struct World<S> {
    /// The bodies in insertion order; a body's index is its identity.
    pub bodies: Vec<Body<S>>,
    /// The gravitational constant.
    pub g: S,
    /// The scheme that the next `step` runs.
    pub integrator: Integrator,
}

impl<S: Scalar> World<S> {
    /// An empty world that steps by leapfrog.
    pub fn new(g: S) -> (w: World<S>)
        ensures
            w.bodies@.len() == 0,
            w.g == g,
            w.integrator == Integrator::Leapfrog,
    {
        World { bodies: Vec::new(), g, integrator: Integrator::Leapfrog }
    }

    /// Appends `body` behind the bodies already there.
    pub fn add_body(&mut self, body: Body<S>)
        ensures
            final(self).bodies@ == old(self).bodies@.push(body),
            final(self).g == old(self).g,
            final(self).integrator == old(self).integrator,
    {
        self.bodies.push(body);
    }

    /// Overwrites every body's acceleration with the softened Newtonian pull
    /// of all the others at their current positions.
    pub fn compute_accelerations(&mut self)
        ensures
            final(self).bodies@ == refreshed_all(old(self).bodies@, old(self).g),
            final(self).g == old(self).g,
            final(self).integrator == old(self).integrator,
    {
        let out = refreshed(&self.bodies, self.g);
        self.bodies = out;
    }

    /// Advances the world by `dt` with the active scheme.
    pub fn step(&mut self, dt: S)
        ensures
            final(self).bodies@ == stepped(old(self).integrator, old(self).bodies@, old(self).g, dt),
            final(self).g == old(self).g,
            final(self).integrator == old(self).integrator,
    {
        match self.integrator {
            Integrator::Euler => self.step_euler(dt),
            Integrator::Leapfrog => self.step_leapfrog(dt),
            Integrator::RK4 => self.step_rk4(dt),
        }
    }

    /// Explicit Euler: fresh accelerations, then position and velocity both
    /// advanced from their values before the update.
    pub fn step_euler(&mut self, dt: S)
        ensures
            final(self).bodies@ == euler_all(old(self).bodies@, old(self).g, dt),
            final(self).g == old(self).g,
            final(self).integrator == old(self).integrator,
    {
        let fresh = refreshed(&self.bodies, self.g);
        let n: usize = fresh.len();
        let mut out: Vec<Body<S>> = Vec::new();
        let mut i: usize = 0;
        while i < n
            invariant
                n == fresh@.len(),
                i <= n,
                out@.len() == i,
                forall|k: int| 0 <= k < i ==> out@[k] == euler_one(fresh@[k], dt),
            decreases n - i,
        {
            let b = fresh[i];
            out.push(
                Body {
                    mass: b.mass,
                    position: b.position.add(b.velocity.mul(dt)),
                    velocity: b.velocity.add(b.acceleration.mul(dt)),
                    acceleration: b.acceleration,
                },
            );
            i += 1;
        }
        assert(out@ =~= fresh@.map_values(|b: Body<S>| euler_one(b, dt)));
        self.bodies = out;
    }

    /// Leapfrog, kick-drift-kick: the first half-kick reads the accelerations
    /// stored on entry, the second those of the new positions.
    pub fn step_leapfrog(&mut self, dt: S)
        ensures
            final(self).bodies@ == leapfrog_all(old(self).bodies@, old(self).g, dt),
            final(self).g == old(self).g,
            final(self).integrator == old(self).integrator,
    {
        let half = dt.product(S::of_ratio(1, 2));
        let first = kicked(&self.bodies, half);
        let moved = drifted(&first, dt);
        let fresh = refreshed(&moved, self.g);
        let out = kicked(&fresh, half);
        self.bodies = out;
    }

    /// Classical fourth-order Runge-Kutta: four force evaluations, every
    /// stage restarted from the same base state.
    pub fn step_rk4(&mut self, dt: S)
        ensures
            final(self).bodies@ == rk4_all(old(self).bodies@, old(self).g, dt),
            final(self).g == old(self).g,
            final(self).integrator == old(self).integrator,
    {
        let half = dt.product(S::of_ratio(1, 2));
        let sixth = dt.quotient(S::of_ratio(6, 1));
        self.compute_accelerations();
        let base = snapshot(&self.bodies);
        let k1 = rates(&base);

        self.apply_k(&k1, half);
        self.compute_accelerations();
        let k2 = rates(&self.bodies);

        self.bodies = snapshot(&base);
        self.apply_k(&k2, half);
        self.compute_accelerations();
        let k3 = rates(&self.bodies);

        self.bodies = snapshot(&base);
        self.apply_k(&k3, dt);
        self.compute_accelerations();
        let k4 = rates(&self.bodies);

        let n: usize = base.len();
        let mut out: Vec<Body<S>> = Vec::new();
        let mut i: usize = 0;
        while i < n
            invariant
                n == base@.len(),
                n == k1@.len(),
                n == k2@.len(),
                n == k3@.len(),
                n == k4@.len(),
                i <= n,
                out@.len() == i,
                forall|m: int|
                    0 <= m < i ==> out@[m] == advance(
                        base@[m],
                        (
                            blend(k1@[m].0, k2@[m].0, k3@[m].0, k4@[m].0),
                            blend(k1@[m].1, k2@[m].1, k3@[m].1, k4@[m].1),
                        ),
                        sixth,
                    ),
            decreases n - i,
        {
            let b = base[i];
            let by_velocity = blended(k1[i].0, k2[i].0, k3[i].0, k4[i].0);
            let by_acceleration = blended(k1[i].1, k2[i].1, k3[i].1, k4[i].1);
            out.push(
                Body {
                    mass: b.mass,
                    position: b.position.add(by_velocity.mul(sixth)),
                    velocity: b.velocity.add(by_acceleration.mul(sixth)),
                    acceleration: b.acceleration,
                },
            );
            i += 1;
        }
        assert(out@ =~= rk4_all(old(self).bodies@, old(self).g, dt));
        self.bodies = out;
    }

    /// Moves every body along its entry of `k` over `dt`.
    fn apply_k(&mut self, k: &Vec<(Vec2<S>, Vec2<S>)>, dt: S)
        requires
            k@.len() == old(self).bodies@.len(),
        ensures
            final(self).bodies@ == advanced_all(old(self).bodies@, k@, dt),
            final(self).g == old(self).g,
            final(self).integrator == old(self).integrator,
    {
        let out = advanced(&self.bodies, k, dt);
        self.bodies = out;
    }

    /// Kinetic plus pairwise potential energy of the current state. The
    /// potential is not softened.
    pub fn total_energy(&self) -> (e: S)
        ensures
            e == energy_of(self.bodies@, self.g),
    {
        let n: usize = self.bodies.len();
        let half = S::of_ratio(1, 2);
        let mut kinetic = S::of_ratio(0, 1);
        let mut potential = S::of_ratio(0, 1);
        let mut i: usize = 0;
        while i < n
            invariant
                n == self.bodies@.len(),
                i <= n,
                half == S::ratio(1, 2),
                kinetic == kinetic_sum(self.bodies@, i as int),
            decreases n - i,
        {
            let b = self.bodies[i];
            let speed = b.velocity.length();
            kinetic = kinetic.sum(half.product(b.mass).product(speed.product(speed)));
            i += 1;
        }
        i = 0;
        while i < n
            invariant
                n == self.bodies@.len(),
                i <= n,
                potential == potential_sum(self.bodies@, self.g, i as int),
            decreases n - i,
        {
            let ghost start = potential;
            let mut j: usize = i + 1;
            while j < n
                invariant
                    n == self.bodies@.len(),
                    i < n,
                    i + 1 <= j <= n,
                    potential == row_sum(self.bodies@, self.g, start, i as int, j as int),
                decreases n - j,
            {
                let r = self.bodies[i].position.sub(self.bodies[j].position).length();
                potential = potential.diff(
                    self.g.product(self.bodies[i].mass).product(self.bodies[j].mass).quotient(r),
                );
                j += 1;
            }
            i += 1;
        }
        kinetic.sum(potential)
    }
}

/// A copy of `bodies`, entry for entry.
fn snapshot<S: Scalar>(bodies: &Vec<Body<S>>) -> (out: Vec<Body<S>>)
    ensures
        out@ == bodies@,
{
    let n: usize = bodies.len();
    let mut out: Vec<Body<S>> = Vec::new();
    let mut i: usize = 0;
    while i < n
        invariant
            n == bodies@.len(),
            i <= n,
            out@.len() == i,
            forall|k: int| 0 <= k < i ==> out@[k] == bodies@[k],
        decreases n - i,
    {
        out.push(bodies[i]);
        i += 1;
    }
    assert(out@ =~= bodies@);
    out
}

} // verus!
