use nbody::body::Body;
use nbody::integrator::Integrator;
use nbody::scalar::Scalar;
use nbody::vec2::Vec2;
use nbody::world::World;

#[derive(Clone, Copy, Debug, PartialEq)]
struct Real(f64);

impl Scalar for Real {
    fn plus(self, other: Self) -> Self {
        Real(self.0 + other.0)
    }

    fn minus(self, other: Self) -> Self {
        Real(self.0 - other.0)
    }

    fn times(self, other: Self) -> Self {
        Real(self.0 * other.0)
    }

    fn over(self, other: Self) -> Self {
        Real(self.0 / other.0)
    }

    fn root(self) -> Self {
        Real(self.0.sqrt())
    }

    fn ratio(num: u64, den: u64) -> Self {
        Real(num as f64 / den as f64)
    }

    fn sum(self, other: Self) -> Self {
        Real(self.0 + other.0)
    }

    fn diff(self, other: Self) -> Self {
        Real(self.0 - other.0)
    }

    fn product(self, other: Self) -> Self {
        Real(self.0 * other.0)
    }

    fn quotient(self, other: Self) -> Self {
        Real(self.0 / other.0)
    }

    fn root_of(self) -> Self {
        Real(self.0.sqrt())
    }

    fn of_ratio(num: u64, den: u64) -> Self {
        Real(num as f64 / den as f64)
    }
}

fn v(x: f64, y: f64) -> Vec2<Real> {
    Vec2::new(Real(x), Real(y))
}

fn body(mass: f64, position: (f64, f64), velocity: (f64, f64)) -> Body<Real> {
    Body {
        mass: Real(mass),
        position: v(position.0, position.1),
        velocity: v(velocity.0, velocity.1),
        acceleration: Vec2::zero(),
    }
}

fn two_bodies(scheme: Integrator) -> World<Real> {
    let mut world = World::new(Real(1.0));
    world.integrator = scheme;
    world.add_body(body(1.0, (0.0, 0.0), (0.0, 0.0)));
    world.add_body(body(0.000003, (1.0, 0.0), (0.0, 1.0)));
    world.compute_accelerations();
    world
}

fn three_bodies(scheme: Integrator) -> World<Real> {
    let mut world = World::new(Real(1.0));
    world.integrator = scheme;
    world.add_body(body(1.0, (0.0, 0.0), (0.0, 0.0)));
    world.add_body(body(0.000003, (1.0, 0.0), (0.0, 1.0)));
    world.add_body(body(0.0000003, (1.5, 0.0), (0.0, (1.0_f64 / 1.5).sqrt())));
    world.compute_accelerations();
    world
}

fn momentum(world: &World<Real>) -> (f64, f64) {
    let mut px = 0.0;
    let mut py = 0.0;
    for b in &world.bodies {
        px += b.mass.0 * b.velocity.x.0;
        py += b.mass.0 * b.velocity.y.0;
    }
    (px, py)
}

const SCHEMES: [Integrator; 3] = [Integrator::Euler, Integrator::Leapfrog, Integrator::RK4];

#[test]
fn vector_operations() {
    let a = v(3.0, 4.0);
    let b = v(1.0, -2.0);
    assert_eq!(a.add(b), v(4.0, 2.0));
    assert_eq!(a.sub(b), v(2.0, 6.0));
    assert_eq!(a.mul(Real(0.5)), v(1.5, 2.0));
    assert_eq!(a.length(), Real(5.0));
    assert_eq!(Vec2::<Real>::zero(), v(0.0, 0.0));
    assert_eq!(Vec2::<Real>::zero().length(), Real(0.0));
}

#[test]
fn new_world_is_empty_and_steps_by_leapfrog() {
    let world = World::new(Real(2.5));
    assert_eq!(world.bodies.len(), 0);
    assert_eq!(world.g, Real(2.5));
    assert_eq!(world.integrator, Integrator::Leapfrog);
}

#[test]
fn bodies_keep_insertion_order() {
    let mut world = World::new(Real(1.0));
    world.add_body(body(1.0, (0.0, 0.0), (0.0, 0.0)));
    world.add_body(body(2.0, (1.0, 0.0), (0.0, 0.0)));
    world.add_body(body(3.0, (2.0, 0.0), (0.0, 0.0)));
    let masses: Vec<f64> = world.bodies.iter().map(|b| b.mass.0).collect();
    assert_eq!(masses, vec![1.0, 2.0, 3.0]);
}

#[test]
fn empty_world_steps_and_has_zero_energy() {
    for scheme in SCHEMES {
        let mut world = World::new(Real(1.0));
        world.integrator = scheme;
        world.step(Real(0.002));
        assert_eq!(world.bodies.len(), 0);
        assert_eq!(world.total_energy(), Real(0.0));
    }
}

#[test]
fn lone_body_feels_no_pull_under_any_scheme() {
    for scheme in SCHEMES {
        let mut world = World::new(Real(1.0));
        world.integrator = scheme;
        world.add_body(body(5.0, (1.0, 2.0), (3.0, -1.0)));
        world.compute_accelerations();
        world.step(Real(0.5));
        let b = world.bodies[0];
        assert_eq!(b.acceleration, v(0.0, 0.0));
        assert_eq!(b.velocity, v(3.0, -1.0));
        assert_eq!(b.position, v(2.5, 1.5));
        assert_eq!(b.mass, Real(5.0));
    }
}

#[test]
fn pair_accelerations_are_newtonian_and_softened() {
    let mut world = World::new(Real(1.0));
    world.add_body(body(1.0, (0.0, 0.0), (0.0, 0.0)));
    world.add_body(body(2.0, (1.0, 0.0), (0.0, 0.0)));
    world.compute_accelerations();
    let d = 1.0 + 1e-6;
    let cube = d * d * d;
    assert_eq!(world.bodies[0].acceleration, v(0.0 + 1.0 * (2.0 / cube), 0.0 + 0.0 * (2.0 / cube)));
    assert_eq!(world.bodies[1].acceleration, v(0.0 + -1.0 * (1.0 / cube), 0.0 + 0.0 * (1.0 / cube)));
}

#[test]
fn pair_accelerations_are_opposite_and_scaled_by_mass() {
    let mut world = World::new(Real(1.0));
    world.add_body(body(3.0, (-1.0, 0.5), (0.0, 0.0)));
    world.add_body(body(0.25, (2.0, -1.5), (0.0, 0.0)));
    world.compute_accelerations();
    let a = world.bodies[0];
    let b = world.bodies[1];
    assert!((a.mass.0 * a.acceleration.x.0 + b.mass.0 * b.acceleration.x.0).abs() < 1e-15);
    assert!((a.mass.0 * a.acceleration.y.0 + b.mass.0 * b.acceleration.y.0).abs() < 1e-15);
    assert!(a.acceleration.x.0 > 0.0 && b.acceleration.x.0 < 0.0);
}

#[test]
fn coincident_bodies_give_finite_acceleration() {
    let mut world = World::new(Real(1.0));
    world.add_body(body(1.0, (1.0, 1.0), (0.0, 0.0)));
    world.add_body(body(1.0, (1.0, 1.0), (0.0, 0.0)));
    world.compute_accelerations();
    assert_eq!(world.bodies[0].acceleration, v(0.0, 0.0));
    assert_eq!(world.bodies[1].acceleration, v(0.0, 0.0));
}

#[test]
fn coincident_bodies_give_unbounded_energy() {
    let mut world = World::new(Real(1.0));
    world.add_body(body(1.0, (1.0, 1.0), (0.0, 0.0)));
    world.add_body(body(1.0, (1.0, 1.0), (0.0, 0.0)));
    assert_eq!(world.total_energy(), Real(f64::NEG_INFINITY));
}

#[test]
fn energy_of_a_pair() {
    let mut world = World::new(Real(1.0));
    world.add_body(body(2.0, (0.0, 0.0), (1.0, 0.0)));
    world.add_body(body(3.0, (3.0, 4.0), (0.0, 0.0)));
    assert_eq!(world.total_energy(), Real(1.0 + (0.0 - 6.0 / 5.0)));
}

#[test]
fn euler_moves_with_the_old_velocity() {
    let mut world = two_bodies(Integrator::Euler);
    world.step(Real(0.002));
    let earth = world.bodies[1];
    assert_eq!(earth.position, v(1.0, 0.002));
    assert!((earth.position.y.0 - 0.002).abs() < 1e-3);
    assert!((earth.velocity.x.0 + 0.002).abs() < 1e-6);
    assert!(earth.velocity.x.0 < 0.0);
    assert_eq!(earth.velocity.y, Real(1.0));
    assert!((earth.acceleration.x.0 + 1.0).abs() < 1e-5);
}

#[test]
fn leapfrog_first_kick_reads_the_stored_acceleration() {
    let mut world = World::new(Real(1.0));
    world.integrator = Integrator::Leapfrog;
    let mut b = body(1.0, (0.0, 0.0), (1.0, 0.0));
    b.acceleration = v(0.0, 4.0);
    world.add_body(b);
    world.step(Real(0.5));
    let b = world.bodies[0];
    assert_eq!(b.velocity, v(1.0, 1.0));
    assert_eq!(b.position, v(0.5, 0.5));
    assert_eq!(b.acceleration, v(0.0, 0.0));
}

#[test]
fn runge_kutta_leaves_the_fresh_acceleration() {
    let mut world = two_bodies(Integrator::RK4);
    let before = world.bodies[1].acceleration;
    world.bodies[1].acceleration = v(7.0, 7.0);
    world.step(Real(0.002));
    assert_eq!(world.bodies[1].acceleration, before);
}

#[test]
fn momentum_is_conserved_by_every_scheme() {
    for scheme in SCHEMES {
        let mut world = three_bodies(scheme);
        let (px, py) = momentum(&world);
        for _ in 0..500 {
            world.step(Real(0.002));
        }
        let (qx, qy) = momentum(&world);
        assert!((px - qx).abs() < 1e-12);
        assert!((py - qy).abs() < 1e-12);
    }
}

#[test]
fn leapfrog_drifts_far_less_than_euler() {
    let mut drift = [0.0_f64; 3];
    for (slot, scheme) in SCHEMES.iter().enumerate() {
        let mut world = World::new(Real(1.0));
        world.integrator = *scheme;
        world.add_body(body(1.0, (0.0, 0.0), (0.0, 0.0)));
        world.add_body(body(0.000001, (1.0, 0.0), (0.0, 1.0)));
        world.compute_accelerations();
        let start = world.total_energy().0;
        for _ in 0..10_000 {
            world.step(Real(0.002));
        }
        drift[slot] = ((world.total_energy().0 - start) / start).abs();
    }
    assert!(drift[1] * 10.0 <= drift[0]);
    assert!(drift[2] * 10.0 <= drift[0]);
}

#[test]
fn runs_are_repeatable() {
    for scheme in SCHEMES {
        let mut first = three_bodies(scheme);
        let mut second = three_bodies(scheme);
        for _ in 0..200 {
            first.step(Real(0.002));
            second.step(Real(0.002));
        }
        for (a, b) in first.bodies.iter().zip(second.bodies.iter()) {
            assert_eq!(a.position.x.0.to_bits(), b.position.x.0.to_bits());
            assert_eq!(a.position.y.0.to_bits(), b.position.y.0.to_bits());
            assert_eq!(a.velocity.x.0.to_bits(), b.velocity.x.0.to_bits());
            assert_eq!(a.velocity.y.0.to_bits(), b.velocity.y.0.to_bits());
        }
        assert_eq!(first.total_energy(), second.total_energy());
    }
}

#[test]
fn switching_scheme_mid_run_keeps_the_state_sound() {
    let mut world = three_bodies(Integrator::Euler);
    for _ in 0..10 {
        world.step(Real(0.002));
    }
    world.integrator = world.integrator.select(false, false, true);
    world.step(Real(0.002));
    assert_eq!(world.integrator, Integrator::RK4);
    assert_eq!(world.bodies.len(), 3);
    for b in &world.bodies {
        for value in [b.position.x.0, b.position.y.0, b.velocity.x.0, b.velocity.y.0] {
            assert!(value.is_finite());
            assert!(value.abs() < 10.0);
        }
    }
}

#[test]
fn three_bodies_keep_their_energy_under_leapfrog() {
    let mut world = three_bodies(Integrator::Leapfrog);
    let start = world.total_energy().0;
    for _ in 0..1000 {
        world.step(Real(0.002));
        let now = world.total_energy().0;
        assert!(((now - start) / start).abs() < 0.01);
    }
}

#[test]
fn step_runs_the_selected_procedure() {
    let dt = Real(0.01);
    let mut by_step = three_bodies(Integrator::Euler);
    let mut direct = three_bodies(Integrator::Euler);
    by_step.step(dt);
    direct.step_euler(dt);
    assert_eq!(by_step.bodies[1].position, direct.bodies[1].position);

    let mut by_step = three_bodies(Integrator::Leapfrog);
    let mut direct = three_bodies(Integrator::Leapfrog);
    by_step.step(dt);
    direct.step_leapfrog(dt);
    assert_eq!(by_step.bodies[1].velocity, direct.bodies[1].velocity);

    let mut by_step = three_bodies(Integrator::RK4);
    let mut direct = three_bodies(Integrator::RK4);
    by_step.step(dt);
    direct.step_rk4(dt);
    assert_eq!(by_step.bodies[1].position, direct.bodies[1].position);

    let mut euler = three_bodies(Integrator::Euler);
    let mut rk4 = three_bodies(Integrator::RK4);
    euler.step(dt);
    rk4.step(dt);
    assert_ne!(euler.bodies[1].position, rk4.bodies[1].position);
}
