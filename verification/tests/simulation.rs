use std::cell::RefCell;
use std::f32::consts::PI;

use miniverse::components::{Acceleration, Body, EntityStore, LastPos, Mass, Particle};
use miniverse::{Prefab, Settings, Simulation};
use rand::rngs::StdRng;
use rand::SeedableRng;
use rand_distr::{Distribution, Normal};

type Vec3 = [f32; 3];
type Store = EntityStore<Vec3, f32, u8>;

const ZERO: Vec3 = [0.0, 0.0, 0.0];

fn add(a: Vec3, b: Vec3) -> Vec3 {
    [a[0] + b[0], a[1] + b[1], a[2] + b[2]]
}

fn sub(a: Vec3, b: Vec3) -> Vec3 {
    [a[0] - b[0], a[1] - b[1], a[2] - b[2]]
}

fn scale(a: Vec3, s: f32) -> Vec3 {
    [a[0] * s, a[1] * s, a[2] * s]
}

fn cross(a: Vec3, b: Vec3) -> Vec3 {
    [a[1] * b[2] - b[1] * a[2], a[2] * b[0] - b[2] * a[0], a[0] * b[1] - b[0] * a[1]]
}

fn length_squared(a: Vec3) -> f32 {
    a[0] * a[0] + a[1] * a[1] + a[2] * a[2]
}

fn normalize(a: Vec3) -> Vec3 {
    scale(a, 1.0 / length_squared(a).sqrt())
}

fn pair(g: f32, first: Body<Vec3, f32, u8>, second: Body<Vec3, f32, u8>) -> (Vec3, Vec3) {
    let delta = sub(second.position, first.position);
    let f = g / length_squared(delta);
    let force_unit_mass = scale(delta, f);
    (
        add(first.acceleration.0, scale(force_unit_mass, second.mass.0)),
        sub(second.acceleration.0, scale(force_unit_mass, first.mass.0)),
    )
}

fn attract(g: f32, particle: Particle<Vec3, u8>, body: Body<Vec3, f32, u8>) -> Vec3 {
    let delta = sub(body.position, particle.position);
    let f = g / length_squared(delta);
    add(particle.acceleration.0, scale(scale(delta, f), body.mass.0))
}

fn step(dt: f32, position: Vec3, last: Vec3, acceleration: Vec3) -> Vec3 {
    add(sub(add(position, position), last), scale(acceleration, dt * dt))
}

fn rewind(dt: f32, position: Vec3, velocity: Vec3) -> Vec3 {
    sub(position, scale(velocity, dt))
}

fn galaxy_orbit(
    rng: &mut StdRng,
    g: f32,
    arm: u32,
    arms: u32,
    center_mass: f32,
    center_pos: Vec3,
    center_vel: Vec3,
    normal: Vec3,
) -> (Vec3, Vec3) {
    let normal = normalize(normal);
    let tangent = cross(normal, [-normal[2], normal[0], normal[1]]);
    let bitangent = cross(normal, tangent);
    let radius = 5.0 + Normal::<f32>::new(0.0, 50.0).unwrap().sample(rng).abs();
    let angle = arm as f32 / arms as f32 * 2.0 * PI - radius * 1E-11
        + Normal::new(0.0, PI / 16.0).unwrap().sample(rng);
    let diff = add(scale(tangent, angle.sin()), scale(bitangent, angle.cos()));
    let fly_direction = normalize(cross(diff, normal));
    let pos = add(center_pos, scale(diff, radius));
    let speed = (g as f64 * center_mass as f64 * radius as f64 / (radius as f64 * radius as f64))
        .sqrt() as f32;
    (pos, add(center_vel, scale(fly_direction, speed)))
}

fn belt_orbit(
    rng: &mut StdRng,
    g: f32,
    radius: f32,
    center_mass: f32,
    center_pos: Vec3,
    center_vel: Vec3,
    normal: Vec3,
) -> (Vec3, Vec3) {
    let normal = normalize(normal);
    let tangent = cross(normal, [-normal[2], normal[0], normal[1]]);
    let bitangent = cross(normal, tangent);
    let angle = Normal::new(0.0, 2.0 * PI).unwrap().sample(rng);
    let diff = add(scale(tangent, angle.sin()), scale(bitangent, angle.cos()));
    let fly_direction = normalize(cross(diff, normal));
    let pos = add(center_pos, scale(diff, radius));
    let speed =
        (g as f64 * center_mass as f64 * radius as f64 / (radius as f64 * radius as f64)) as f32 * g;
    (pos, add(center_vel, scale(fly_direction, speed)))
}

fn body(mass: f32, position: Vec3) -> Prefab<Vec3, f32, u8> {
    Prefab::Body { mass, radius: 1.0, color: 1, initial_position: position, initial_velocity: ZERO }
}

fn set_up(simulation: &Simulation<Vec3, f32, u8>, seed: u64) -> Store {
    let mut store: Store = EntityStore::new();
    let mut rng = StdRng::seed_from_u64(seed);
    simulation.setup(&mut store, &mut rng, ZERO, 1.0, &rewind, &galaxy_orbit, &belt_orbit);
    store
}

#[test]
fn new_simulation_holds_its_constants_and_no_system() {
    let simulation: Simulation<Vec3, f32, u8> = Simulation::new(0.5, 10.0, 0.07, 3.0, -250.0, 9);
    assert_eq!(
        simulation.settings(),
        Settings {
            time_step: 0.5,
            gravity_constant: 10.0,
            particle_radius: 0.07,
            camera_position: -250.0,
            camera_speed: 3.0,
        }
    );
    assert_eq!(simulation.background_color(), 9);
    assert!(simulation.systems().is_empty());
}

#[test]
fn config_replaces_the_systems() {
    let mut simulation: Simulation<Vec3, f32, u8> = Simulation::new(0.5, 10.0, 0.07, 3.0, -250.0, 9);
    simulation.config(vec![body(1.0, ZERO), body(2.0, [1.0, 0.0, 0.0])]);
    assert_eq!(simulation.systems().len(), 2);
    let constants = simulation.settings();
    simulation.config(vec![body(3.0, ZERO)]);
    assert_eq!(*simulation.systems(), vec![body(3.0, ZERO)]);
    assert_eq!(simulation.settings(), constants);
    assert_eq!(simulation.background_color(), 9);
}

#[test]
fn simulation_knows_whether_its_systems_can_be_created() {
    let galaxy = |amount: u32, arms: u32| Prefab::Galaxy {
        amount,
        arms,
        center_mass: 10.0,
        center_pos: ZERO,
        center_vel: ZERO,
        normal: [0.0, 0.0, 1.0],
        particle_color: 3,
        center_color: 4,
    };
    assert!(galaxy(0, 0).is_well_formed());
    assert!(galaxy(5, 1).is_well_formed());
    assert!(!galaxy(5, 0).is_well_formed());
    assert!(body(1.0, ZERO).is_well_formed());
    let mut simulation: Simulation<Vec3, f32, u8> = Simulation::new(0.5, 10.0, 0.07, 3.0, -250.0, 9);
    assert!(simulation.is_well_formed());
    simulation.config(vec![body(1.0, ZERO), galaxy(0, 0), galaxy(2, 2)]);
    assert!(simulation.is_well_formed());
    simulation.config(vec![body(1.0, ZERO), galaxy(1, 0), galaxy(2, 2)]);
    assert!(!simulation.is_well_formed());
}

#[test]
fn setup_without_systems_creates_nothing() {
    let simulation: Simulation<Vec3, f32, u8> = Simulation::new(1.0, 1.0, 0.07, 3.0, -250.0, 9);
    let store = set_up(&simulation, 1);
    assert!(store.bodies.is_empty());
    assert!(store.particles.is_empty());
}

#[test]
fn setup_creates_the_systems_in_their_order() {
    let mut simulation: Simulation<Vec3, f32, u8> = Simulation::new(0.5, 10.0, 0.07, 3.0, -250.0, 9);
    simulation.config(vec![
        Prefab::Body {
            mass: 10.0,
            radius: 5.0,
            color: 1,
            initial_position: [0.0, 0.0, 0.0],
            initial_velocity: [0.0, 2.0, 0.0],
        },
        Prefab::Particle { initial_position: [1.0, 0.0, 0.0], initial_velocity: ZERO, color: 2 },
        Prefab::Galaxy {
            amount: 3,
            arms: 2,
            center_mass: 10.0,
            center_pos: [20.0, 20.0, 20.0],
            center_vel: ZERO,
            normal: [0.0, 0.0, 1.0],
            particle_color: 3,
            center_color: 4,
        },
        Prefab::AsteroidBelt {
            amount: 2,
            radius: 85.0,
            center_mass: 10.0,
            center_pos: ZERO,
            center_vel: ZERO,
            normal: [0.0, 0.0, 1.0],
            particle_color: 5,
        },
        Prefab::Particle { initial_position: [2.0, 0.0, 0.0], initial_velocity: ZERO, color: 6 },
    ]);
    let store = set_up(&simulation, 23);
    assert_eq!(store.bodies.len(), 2);
    assert_eq!(store.particles.len(), 7);
    assert_eq!(
        store.bodies[0],
        Body {
            mass: Mass(10.0),
            radius: 5.0,
            color: 1,
            position: ZERO,
            last_pos: LastPos([0.0, -1.0, 0.0]),
            acceleration: Acceleration(ZERO),
        }
    );
    assert_eq!(
        store.bodies[1],
        Body {
            mass: Mass(1.0),
            radius: 1.0,
            color: 4,
            position: [20.0, 20.0, 20.0],
            last_pos: LastPos([20.0, 20.0, 20.0]),
            acceleration: Acceleration(ZERO),
        }
    );
    assert_eq!(
        store.particles.iter().map(|p| p.color).collect::<Vec<u8>>(),
        vec![2, 3, 3, 3, 5, 5, 6]
    );
}

#[test]
fn setup_adds_to_a_store_that_holds_entities() {
    let mut simulation: Simulation<Vec3, f32, u8> = Simulation::new(1.0, 1.0, 0.07, 3.0, -250.0, 9);
    simulation.config(vec![body(1.0, ZERO)]);
    let mut store = set_up(&simulation, 1);
    let mut rng = StdRng::seed_from_u64(2);
    simulation.setup(&mut store, &mut rng, ZERO, 1.0, &rewind, &galaxy_orbit, &belt_orbit);
    assert_eq!(store.bodies.len(), 2);
    assert_eq!(store.bodies[0], store.bodies[1]);
}

#[test]
fn setup_hands_the_constants_of_the_simulation_to_the_callbacks() {
    let mut simulation: Simulation<Vec3, f32, u8> = Simulation::new(0.25, 6.5, 0.07, 3.0, -250.0, 9);
    simulation.config(vec![
        Prefab::Galaxy {
            amount: 1,
            arms: 1,
            center_mass: 10.0,
            center_pos: ZERO,
            center_vel: ZERO,
            normal: [0.0, 0.0, 1.0],
            particle_color: 3,
            center_color: 4,
        },
        Prefab::AsteroidBelt {
            amount: 1,
            radius: 85.0,
            center_mass: 10.0,
            center_pos: ZERO,
            center_vel: ZERO,
            normal: [0.0, 0.0, 1.0],
            particle_color: 5,
        },
    ]);
    let steps: RefCell<Vec<f32>> = RefCell::new(Vec::new());
    let constants: RefCell<Vec<f32>> = RefCell::new(Vec::new());
    let back = |dt: f32, position: Vec3, _velocity: Vec3| {
        steps.borrow_mut().push(dt);
        position
    };
    let galaxy = |_r: &mut StdRng, g: f32, _a: u32, _n: u32, _m: f32, p: Vec3, v: Vec3, _d: Vec3| {
        constants.borrow_mut().push(g);
        (p, v)
    };
    let belt = |_r: &mut StdRng, g: f32, _l: f32, _m: f32, p: Vec3, v: Vec3, _d: Vec3| {
        constants.borrow_mut().push(g);
        (p, v)
    };
    let mut store: Store = EntityStore::new();
    let mut rng = StdRng::seed_from_u64(1);
    simulation.setup(&mut store, &mut rng, ZERO, 1.0, &back, &galaxy, &belt);
    assert_eq!(*steps.borrow(), vec![0.25, 0.25, 0.25]);
    assert_eq!(*constants.borrow(), vec![6.5, 6.5]);
}

#[test]
fn two_bodies_fall_towards_each_other() {
    let mut simulation: Simulation<Vec3, f32, u8> = Simulation::new(1.0, 1.0, 0.07, 3.0, -250.0, 9);
    simulation.config(vec![body(1.0, [0.0, 0.0, 0.0]), body(1.0, [10.0, 0.0, 0.0])]);
    let mut store = set_up(&simulation, 1);
    assert_eq!(store.bodies[0].last_pos, LastPos([0.0, 0.0, 0.0]));
    assert_eq!(store.bodies[1].last_pos, LastPos([10.0, 0.0, 0.0]));
    simulation.tick(&mut store, ZERO, &pair, &attract, &step);
    // Each accelerates by delta * (G / d^2) * m = 10 * (1 / 100) * 1 towards the
    // other, and from rest moves by that times dt^2.
    let moved = 0.1;
    assert!((store.bodies[0].position[0] - moved).abs() < 1e-6);
    assert!((store.bodies[1].position[0] - (10.0 - moved)).abs() < 1e-6);
    assert!((store.bodies[0].position[0] - (10.0 - store.bodies[1].position[0])).abs() < 1e-5);
    for k in 0..2 {
        assert_eq!(store.bodies[k].position[1], 0.0);
        assert_eq!(store.bodies[k].position[2], 0.0);
        assert_eq!(store.bodies[k].acceleration, Acceleration(ZERO));
    }
    assert_eq!(store.bodies[0].last_pos, LastPos([0.0, 0.0, 0.0]));
    assert_eq!(store.bodies[1].last_pos, LastPos([10.0, 0.0, 0.0]));
}

#[test]
fn two_bodies_of_small_mass_at_unit_distance() {
    let mut simulation: Simulation<Vec3, f32, u8> = Simulation::new(1.0, 1.0, 0.07, 3.0, -250.0, 9);
    simulation.config(vec![body(0.25, [0.0, 0.0, 0.0]), body(0.25, [1.0, 0.0, 0.0])]);
    let mut store = set_up(&simulation, 1);
    simulation.tick(&mut store, ZERO, &pair, &attract, &step);
    // At distance 1 the acceleration is G * m / d^2 = 0.25.
    assert_eq!(store.bodies[0].position, [0.25, 0.0, 0.0]);
    assert_eq!(store.bodies[1].position, [0.75, 0.0, 0.0]);
}

#[test]
fn tick_runs_the_passes_in_order() {
    let mut simulation: Simulation<Vec3, f32, u8> = Simulation::new(1.0, 1.0, 0.07, 3.0, -250.0, 9);
    simulation.config(vec![
        body(1.0, [0.0, 0.0, 0.0]),
        body(1.0, [1.0, 0.0, 0.0]),
        Prefab::Particle { initial_position: [2.0, 0.0, 0.0], initial_velocity: ZERO, color: 2 },
    ]);
    let mut store = set_up(&simulation, 1);
    let log: RefCell<Vec<&str>> = RefCell::new(Vec::new());
    let pairs = |_g: f32, a: Body<Vec3, f32, u8>, b: Body<Vec3, f32, u8>| {
        log.borrow_mut().push("pair");
        (a.acceleration.0, b.acceleration.0)
    };
    let pulls = |_g: f32, p: Particle<Vec3, u8>, _b: Body<Vec3, f32, u8>| {
        log.borrow_mut().push("attract");
        p.acceleration.0
    };
    let steps = |_dt: f32, position: Vec3, _last: Vec3, _acceleration: Vec3| {
        log.borrow_mut().push("step");
        position
    };
    simulation.tick(&mut store, ZERO, &pairs, &pulls, &steps);
    assert_eq!(*log.borrow(), vec!["pair", "attract", "attract", "step", "step", "step"]);
}

#[test]
fn particle_falls_and_body_stays() {
    let mut simulation: Simulation<Vec3, f32, u8> = Simulation::new(0.5, 2.0, 0.07, 3.0, -250.0, 9);
    simulation.config(vec![
        body(4.0, [0.0, 0.0, 0.0]),
        Prefab::Particle { initial_position: [0.0, 2.0, 0.0], initial_velocity: ZERO, color: 2 },
    ]);
    let mut store = set_up(&simulation, 1);
    simulation.tick(&mut store, ZERO, &pair, &attract, &step);
    assert_eq!(store.bodies[0].position, [0.0, 0.0, 0.0]);
    // delta * (G / d^2) * m * dt^2 = -2 * (2 / 4) * 4 * 0.25
    assert_eq!(store.particles[0].position, [0.0, 1.0, 0.0]);
    assert_eq!(store.particles[0].last_pos, LastPos([0.0, 2.0, 0.0]));
}

#[test]
fn moving_body_keeps_moving() {
    let mut simulation: Simulation<Vec3, f32, u8> = Simulation::new(0.5, 1.0, 0.07, 3.0, -250.0, 9);
    simulation.config(vec![Prefab::Body {
        mass: 1.0,
        radius: 1.0,
        color: 1,
        initial_position: [1.0, 1.0, 1.0],
        initial_velocity: [2.0, 0.0, -2.0],
    }]);
    let mut store = set_up(&simulation, 1);
    simulation.tick(&mut store, ZERO, &pair, &attract, &step);
    assert_eq!(store.bodies[0].position, [2.0, 1.0, 0.0]);
    simulation.tick(&mut store, ZERO, &pair, &attract, &step);
    assert_eq!(store.bodies[0].position, [3.0, 1.0, -1.0]);
    assert_eq!(store.bodies[0].last_pos, LastPos([2.0, 1.0, 0.0]));
}

#[test]
fn settings_hold_what_they_are_given() {
    let settings = Settings {
        time_step: 1.0 / 60.0,
        gravity_constant: 10.0,
        particle_radius: 0.07,
        camera_position: -250.0,
        camera_speed: 3.0,
    };
    let copy = settings;
    assert_eq!(copy, settings);
    assert_eq!(copy.gravity_constant, 10.0);
}

#[test]
fn tick_keeps_what_is_not_a_position() {
    let mut simulation: Simulation<Vec3, f32, u8> = Simulation::new(0.5, 2.0, 0.07, 3.0, -250.0, 9);
    simulation.config(vec![
        Prefab::Body {
            mass: 4.0,
            radius: 5.0,
            color: 1,
            initial_position: [0.0, 0.0, 0.0],
            initial_velocity: [1.0, 0.0, 0.0],
        },
        body(2.0, [3.0, 0.0, 0.0]),
        Prefab::Particle { initial_position: [0.0, 2.0, 0.0], initial_velocity: ZERO, color: 2 },
    ]);
    let mut store = set_up(&simulation, 1);
    let before = store.clone();
    simulation.tick(&mut store, ZERO, &pair, &attract, &step);
    assert_eq!(store.bodies.len(), 2);
    assert_eq!(store.particles.len(), 1);
    for k in 0..2 {
        assert_eq!(store.bodies[k].mass, before.bodies[k].mass);
        assert_eq!(store.bodies[k].radius, before.bodies[k].radius);
        assert_eq!(store.bodies[k].color, before.bodies[k].color);
        assert_eq!(store.bodies[k].last_pos, LastPos(before.bodies[k].position));
        assert_eq!(store.bodies[k].acceleration, Acceleration(ZERO));
    }
    assert_eq!(store.particles[0].color, 2);
    assert_eq!(store.particles[0].last_pos, LastPos([0.0, 2.0, 0.0]));
    assert_eq!(store.particles[0].acceleration, Acceleration(ZERO));
}

#[test]
fn lone_body_at_rest_never_moves() {
    let mut simulation: Simulation<Vec3, f32, u8> = Simulation::new(0.5, 2.0, 0.07, 3.0, -250.0, 9);
    simulation.config(vec![body(4.0, [1.0, 2.0, 3.0])]);
    let mut store = set_up(&simulation, 1);
    let before = store.bodies[0];
    for _ in 0..10 {
        simulation.tick(&mut store, ZERO, &pair, &attract, &step);
    }
    assert_eq!(store.bodies[0], before);
}

#[test]
fn new_particle_flies_with_its_velocity() {
    let mut simulation: Simulation<Vec3, f32, u8> = Simulation::new(0.25, 1.0, 0.07, 3.0, -250.0, 9);
    simulation.config(vec![Prefab::Particle {
        initial_position: [1.0, 2.0, 3.0],
        initial_velocity: [4.0, -8.0, 0.0],
        color: 2,
    }]);
    let mut store = set_up(&simulation, 1);
    assert_eq!(store.particles[0].last_pos, LastPos([0.0, 4.0, 3.0]));
    simulation.tick(&mut store, ZERO, &pair, &attract, &step);
    assert_eq!(store.particles[0].position, [2.0, 0.0, 3.0]);
    assert_eq!(store.particles[0].last_pos, LastPos([1.0, 2.0, 3.0]));
}
