//! The driver: the configuration of a simulation, its setup and its tick.

use vstd::prelude::*;
use rand::rngs::StdRng;
use crate::components::{Body, Entities, EntityStore, Particle};
use crate::generation::Prefab;
use crate::{creation, gravity, pairs};

verus! {

/// The constants of a running simulation.
#[derive(Clone, Copy, Debug, PartialEq)]
pub struct Settings<S> {
    pub time_step: S,
    pub gravity_constant: S,
    pub particle_radius: S,
    pub camera_position: S,
    pub camera_speed: S,
}

/// The configuration of a simulation: its constants and the systems that it
/// creates when it is set up. The constants are fixed when the simulation is
/// made; only the systems can be replaced.
#[derive(Clone, Debug)]
pub struct Simulation<V, S, C> {
    time_step: S,
    gravity_constant: S,
    particle_radius: S,
    camera_speed: S,
    camera_position: S,
    background_color: C,
    systems: Vec<Prefab<V, S, C>>,
}

/// What a [`Simulation`] holds.
pub struct SimulationView<V, S, C> {
    pub settings: Settings<S>,
    pub background_color: C,
    pub systems: Seq<Prefab<V, S, C>>,
}

impl<V, S, C> View for Simulation<V, S, C> {
    type V = SimulationView<V, S, C>;

    closed spec fn view(&self) -> SimulationView<V, S, C> {
        SimulationView {
            settings: Settings {
                time_step: self.time_step,
                gravity_constant: self.gravity_constant,
                particle_radius: self.particle_radius,
                camera_position: self.camera_position,
                camera_speed: self.camera_speed,
            },
            background_color: self.background_color,
            systems: self.systems@,
        }
    }
}

/// What creating `prefab` does to the store.
pub open spec fn prefab_created<
    V,
    S,
    C,
    R: Fn(S, V, V) -> V,
    G: Fn(&mut StdRng, S, u32, u32, S, V, V, V) -> (V, V),
    B: Fn(&mut StdRng, S, S, S, V, V, V) -> (V, V),
>(
    rewind: R,
    galaxy_orbit: G,
    belt_orbit: B,
    settings: Settings<S>,
    zero: V,
    unit: S,
    prefab: Prefab<V, S, C>,
    before: Entities<V, S, C>,
    after: Entities<V, S, C>,
) -> bool {
    match prefab {
        Prefab::Particle { initial_position, initial_velocity, color } => {
            creation::particle_created(
                rewind,
                settings.time_step,
                zero,
                initial_position,
                initial_velocity,
                color,
                before,
                after,
            )
        },
        Prefab::Body { mass, radius, color, initial_position, initial_velocity } => {
            creation::body_created(
                rewind,
                settings.time_step,
                zero,
                mass,
                radius,
                color,
                initial_position,
                initial_velocity,
                before,
                after,
            )
        },
        Prefab::Galaxy {
            amount,
            arms,
            center_mass,
            center_pos,
            center_vel,
            normal,
            particle_color,
            center_color,
        } => {
            creation::galaxy_created(
                galaxy_orbit,
                rewind,
                settings,
                zero,
                unit,
                amount,
                arms,
                center_mass,
                center_pos,
                center_vel,
                normal,
                particle_color,
                center_color,
                before,
                after,
            )
        },
        Prefab::AsteroidBelt {
            amount,
            radius,
            center_mass,
            center_pos,
            center_vel,
            normal,
            particle_color,
        } => {
            creation::belt_created(
                belt_orbit,
                rewind,
                settings,
                zero,
                amount,
                radius,
                center_mass,
                center_pos,
                center_vel,
                normal,
                particle_color,
                before,
                after,
            )
        },
    }
}

/// What creating the prefabs of `systems`, one after another, does to the
/// store.
pub open spec fn systems_created<
    V,
    S,
    C,
    R: Fn(S, V, V) -> V,
    G: Fn(&mut StdRng, S, u32, u32, S, V, V, V) -> (V, V),
    B: Fn(&mut StdRng, S, S, S, V, V, V) -> (V, V),
>(
    rewind: R,
    galaxy_orbit: G,
    belt_orbit: B,
    settings: Settings<S>,
    zero: V,
    unit: S,
    systems: Seq<Prefab<V, S, C>>,
    before: Entities<V, S, C>,
    after: Entities<V, S, C>,
) -> bool
    decreases systems.len(),
{
    if systems.len() == 0 {
        after == before
    } else {
        exists|mid: Entities<V, S, C>|
            systems_created(
                rewind,
                galaxy_orbit,
                belt_orbit,
                settings,
                zero,
                unit,
                systems.drop_last(),
                before,
                mid,
            ) && #[trigger] prefab_created(
                rewind,
                galaxy_orbit,
                belt_orbit,
                settings,
                zero,
                unit,
                systems.last(),
                mid,
                after,
            )
    }
}

/// The number of bodies that `systems` create.
pub open spec fn bodies_of<V, S, C>(systems: Seq<Prefab<V, S, C>>) -> nat
    decreases systems.len(),
{
    if systems.len() == 0 {
        0
    } else {
        bodies_of(systems.drop_last()) + systems.last().bodies()
    }
}

/// The number of particles that `systems` create.
pub open spec fn particles_of<V, S, C>(systems: Seq<Prefab<V, S, C>>) -> nat
    decreases systems.len(),
{
    if systems.len() == 0 {
        0
    } else {
        particles_of(systems.drop_last()) + systems.last().particles()
    }
}

/// What the two force passes do, the one after the other.
pub open spec fn forces_accumulated<
    V,
    S,
    C,
    P: Fn(S, Body<V, S, C>, Body<V, S, C>) -> (V, V),
    A: Fn(S, Particle<V, C>, Body<V, S, C>) -> V,
>(
    pair: P,
    attract: A,
    gravity_constant: S,
    before: Entities<V, S, C>,
    after: Entities<V, S, C>,
) -> bool {
    exists|mid: Entities<V, S, C>|
        #[trigger] gravity::bodies_interacted(pair, gravity_constant, before, mid)
            && gravity::particles_attracted(attract, gravity_constant, mid, after)
}

/// What one tick does: the force passes, then the integrator.
pub open spec fn ticked<
    V,
    S,
    C,
    P: Fn(S, Body<V, S, C>, Body<V, S, C>) -> (V, V),
    A: Fn(S, Particle<V, C>, Body<V, S, C>) -> V,
    I: Fn(S, V, V, V) -> V,
>(
    pair: P,
    attract: A,
    step: I,
    settings: Settings<S>,
    zero: V,
    before: Entities<V, S, C>,
    after: Entities<V, S, C>,
) -> bool {
    exists|mid: Entities<V, S, C>|
        #[trigger] forces_accumulated(pair, attract, settings.gravity_constant, before, mid)
            && gravity::integrated(step, settings.time_step, zero, mid, after)
}

/// Creating a sequence of systems adds as many bodies and particles as its
/// prefabs say: a body for each body and each galaxy, a particle for each
/// particle, and `amount` particles for each galaxy and each belt.
pub proof fn lemma_systems_created_counts<
    V,
    S,
    C,
    R: Fn(S, V, V) -> V,
    G: Fn(&mut StdRng, S, u32, u32, S, V, V, V) -> (V, V),
    B: Fn(&mut StdRng, S, S, S, V, V, V) -> (V, V),
>(
    rewind: R,
    galaxy_orbit: G,
    belt_orbit: B,
    settings: Settings<S>,
    zero: V,
    unit: S,
    systems: Seq<Prefab<V, S, C>>,
    before: Entities<V, S, C>,
    after: Entities<V, S, C>,
)
    requires
        systems_created(
            rewind,
            galaxy_orbit,
            belt_orbit,
            settings,
            zero,
            unit,
            systems,
            before,
            after,
        ),
    ensures
        after.bodies.len() == before.bodies.len() + bodies_of(systems),
        after.particles.len() == before.particles.len() + particles_of(systems),
        after.bodies.take(before.bodies.len() as int) == before.bodies,
        after.particles.take(before.particles.len() as int) == before.particles,
    decreases systems.len(),
{
    if systems.len() > 0 {
        let mid = choose|mid: Entities<V, S, C>|
            systems_created(
                rewind,
                galaxy_orbit,
                belt_orbit,
                settings,
                zero,
                unit,
                systems.drop_last(),
                before,
                mid,
            ) && #[trigger] prefab_created(
                rewind,
                galaxy_orbit,
                belt_orbit,
                settings,
                zero,
                unit,
                systems.last(),
                mid,
                after,
            );
        lemma_systems_created_counts(
            rewind,
            galaxy_orbit,
            belt_orbit,
            settings,
            zero,
            unit,
            systems.drop_last(),
            before,
            mid,
        );
    }
}

/// A particle adds nothing to the acceleration of a body: over the two force
/// passes the bodies change as the body-body pass alone changes them, with
/// particles in the store or without. A body that is alone among the bodies
/// is left as it was.
pub proof fn lemma_particles_leave_bodies<
    V,
    S,
    C,
    P: Fn(S, Body<V, S, C>, Body<V, S, C>) -> (V, V),
    A: Fn(S, Particle<V, C>, Body<V, S, C>) -> V,
>(pair: P, attract: A, gravity_constant: S, before: Entities<V, S, C>, after: Entities<V, S, C>)
    requires
        forces_accumulated(pair, attract, gravity_constant, before, after),
    ensures
        gravity::bodies_interacted(
            pair,
            gravity_constant,
            (Entities { bodies: before.bodies, particles: Seq::empty() }),
            (Entities { bodies: after.bodies, particles: Seq::empty() }),
        ),
        before.bodies.len() <= 1 ==> after.bodies == before.bodies,
{
    let mid = choose|mid: Entities<V, S, C>|
        #[trigger] gravity::bodies_interacted(pair, gravity_constant, before, mid)
            && gravity::particles_attracted(attract, gravity_constant, mid, after);
    if before.bodies.len() <= 1 {
        gravity::lemma_lone_body_unchanged(pair, gravity_constant, before, mid);
    }
}

/// Over one tick the entities keep their number, a body keeps its mass and
/// its look, and a particle its colour; the position that an entity had
/// before the tick is its last position after it, and every accumulator is
/// `zero`.
pub proof fn lemma_tick_frame<
    V,
    S,
    C,
    P: Fn(S, Body<V, S, C>, Body<V, S, C>) -> (V, V),
    A: Fn(S, Particle<V, C>, Body<V, S, C>) -> V,
    I: Fn(S, V, V, V) -> V,
>(
    pair: P,
    attract: A,
    step: I,
    settings: Settings<S>,
    zero: V,
    before: Entities<V, S, C>,
    after: Entities<V, S, C>,
)
    requires
        ticked(pair, attract, step, settings, zero, before, after),
    ensures
        after.bodies.len() == before.bodies.len(),
        after.particles.len() == before.particles.len(),
        forall|i: int|
            0 <= i < before.bodies.len() ==> {
                &&& (#[trigger] after.bodies[i]).mass == before.bodies[i].mass
                &&& after.bodies[i].radius == before.bodies[i].radius
                &&& after.bodies[i].color == before.bodies[i].color
                &&& after.bodies[i].last_pos.0 == before.bodies[i].position
                &&& after.bodies[i].acceleration.0 == zero
            },
        forall|i: int|
            0 <= i < before.particles.len() ==> {
                &&& (#[trigger] after.particles[i]).color == before.particles[i].color
                &&& after.particles[i].last_pos.0 == before.particles[i].position
                &&& after.particles[i].acceleration.0 == zero
            },
{
    let g = settings.gravity_constant;
    let forced = choose|mid: Entities<V, S, C>|
        #[trigger] forces_accumulated(pair, attract, g, before, mid) && gravity::integrated(
            step,
            settings.time_step,
            zero,
            mid,
            after,
        );
    let paired = choose|mid: Entities<V, S, C>|
        #[trigger] gravity::bodies_interacted(pair, g, before, mid)
            && gravity::particles_attracted(attract, g, mid, forced);
    gravity::lemma_pairs_applied_frame(
        pair,
        g,
        pairs::pair_order(before.bodies.len()),
        before.bodies,
        paired.bodies,
    );
    assert forall|i: int| 0 <= i < before.bodies.len() implies {
        &&& (#[trigger] after.bodies[i]).mass == before.bodies[i].mass
        &&& after.bodies[i].radius == before.bodies[i].radius
        &&& after.bodies[i].color == before.bodies[i].color
        &&& after.bodies[i].last_pos.0 == before.bodies[i].position
        &&& after.bodies[i].acceleration.0 == zero
    } by {
        assert(before.bodies[i].same_but_acceleration(paired.bodies[i]));
    }
    assert forall|i: int| 0 <= i < before.particles.len() implies {
        &&& (#[trigger] after.particles[i]).color == before.particles[i].color
        &&& after.particles[i].last_pos.0 == before.particles[i].position
        &&& after.particles[i].acceleration.0 == zero
    } by {
        gravity::lemma_pulls_applied_frame(
            attract,
            g,
            paired.bodies,
            paired.bodies.len(),
            paired.particles[i],
            forced.particles[i],
        );
    }
}

/// The first step of a new particle is made of the callbacks alone: `step`
/// is given the position at which the particle was created, the last
/// position that `rewind` gave for that position and the velocity, and
/// `zero`.
pub proof fn lemma_first_step<V, S, C, R: Fn(S, V, V) -> V, I: Fn(S, V, V, V) -> V>(
    rewind: R,
    step: I,
    time_step: S,
    zero: V,
    initial_position: V,
    initial_velocity: V,
    color: C,
    created: Particle<V, C>,
    stepped: Particle<V, C>,
)
    requires
        creation::particle_seeded(
            rewind,
            time_step,
            zero,
            initial_position,
            initial_velocity,
            color,
            created,
        ),
        gravity::particle_stepped(step, time_step, zero, created, stepped),
    ensures
        exists|last: V|
            rewind.ensures((time_step, initial_position, initial_velocity), last)
                && #[trigger] step.ensures(
                (time_step, initial_position, last, zero),
                stepped.position,
            ),
        stepped.last_pos.0 == initial_position,
{
    assert(step.ensures(
        (time_step, initial_position, created.last_pos.0, zero),
        stepped.position,
    ));
}

/// A tick adds no choice of its own: where the three callbacks are functions,
/// the entities before the tick decide the entities after it.
pub proof fn lemma_tick_unique<
    V,
    S,
    C,
    P: Fn(S, Body<V, S, C>, Body<V, S, C>) -> (V, V),
    A: Fn(S, Particle<V, C>, Body<V, S, C>) -> V,
    I: Fn(S, V, V, V) -> V,
>(
    pair: P,
    attract: A,
    step: I,
    settings: Settings<S>,
    zero: V,
    before: Entities<V, S, C>,
    one: Entities<V, S, C>,
    other: Entities<V, S, C>,
)
    requires
        gravity::pair_single_valued(pair),
        gravity::attract_single_valued(attract),
        gravity::step_single_valued(step),
        ticked(pair, attract, step, settings, zero, before, one),
        ticked(pair, attract, step, settings, zero, before, other),
    ensures
        one == other,
{
    let g = settings.gravity_constant;
    let forced_one = choose|mid: Entities<V, S, C>|
        #[trigger] forces_accumulated(pair, attract, g, before, mid) && gravity::integrated(
            step,
            settings.time_step,
            zero,
            mid,
            one,
        );
    let forced_other = choose|mid: Entities<V, S, C>|
        #[trigger] forces_accumulated(pair, attract, g, before, mid) && gravity::integrated(
            step,
            settings.time_step,
            zero,
            mid,
            other,
        );
    let paired_one = choose|mid: Entities<V, S, C>|
        #[trigger] gravity::bodies_interacted(pair, g, before, mid)
            && gravity::particles_attracted(attract, g, mid, forced_one);
    let paired_other = choose|mid: Entities<V, S, C>|
        #[trigger] gravity::bodies_interacted(pair, g, before, mid)
            && gravity::particles_attracted(attract, g, mid, forced_other);
    gravity::lemma_pairs_applied_unique(
        pair,
        g,
        pairs::pair_order(before.bodies.len()),
        before.bodies,
        paired_one.bodies,
        paired_other.bodies,
    );
    assert forall|p: int| 0 <= p < paired_one.particles.len() implies forced_one.particles[p]
        == forced_other.particles[p] by {
        gravity::lemma_pulls_applied_unique(
            attract,
            g,
            paired_one.bodies,
            paired_one.bodies.len(),
            paired_one.particles[p],
            forced_one.particles[p],
            forced_other.particles[p],
        );
    }
    assert(forced_one.particles =~= forced_other.particles);
    gravity::lemma_integrated_unique(
        step,
        settings.time_step,
        zero,
        forced_one,
        one,
        other,
    );
}

impl<V: Copy, S: Copy, C: Copy> Simulation<V, S, C> {
    /// A simulation with the given constants and no system yet.
    pub fn new(
        time_step: S,
        gravity_constant: S,
        particle_radius: S,
        camera_speed: S,
        camera_position: S,
        background_color: C,
    ) -> (simulation: Self)
        ensures
            simulation@ == (SimulationView::<V, S, C> {
                settings: Settings {
                    time_step,
                    gravity_constant,
                    particle_radius,
                    camera_position,
                    camera_speed,
                },
                background_color,
                systems: Seq::empty(),
            }),
    {
        Self {
            time_step,
            gravity_constant,
            particle_radius,
            camera_speed,
            camera_position,
            background_color,
            systems: Vec::new(),
        }
    }

    /// Replaces the systems that the simulation creates. The constants stay.
    pub fn config(&mut self, systems: Vec<Prefab<V, S, C>>)
        ensures
            final(self)@ == (SimulationView::<V, S, C> { systems: systems@, ..old(self)@ }),
    {
        self.systems = systems;
    }

    /// The constants of the simulation.
    pub fn settings(&self) -> (settings: Settings<S>)
        ensures
            settings == self@.settings,
    {
        Settings {
            time_step: self.time_step,
            gravity_constant: self.gravity_constant,
            particle_radius: self.particle_radius,
            camera_position: self.camera_position,
            camera_speed: self.camera_speed,
        }
    }

    /// The colour behind the scene.
    pub fn background_color(&self) -> (color: C)
        ensures
            color == self@.background_color,
    {
        self.background_color
    }

    /// The systems that the simulation creates, in their order.
    pub fn systems(&self) -> (systems: &Vec<Prefab<V, S, C>>)
        ensures
            systems@ == self@.systems,
    {
        &self.systems
    }

    /// Whether every system of the simulation can be created.
    pub open spec fn well_formed(&self) -> bool {
        forall|i: int| 0 <= i < self@.systems.len() ==> (#[trigger] self@.systems[i]).well_formed()
    }

    /// Tells whether every system of the simulation can be created.
    pub fn is_well_formed(&self) -> (ok: bool)
        ensures
            ok == self.well_formed(),
    {
        let n = self.systems.len();
        let mut i: usize = 0;
        while i < n
            invariant
                i <= n,
                n == self@.systems.len(),
                forall|k: int| 0 <= k < i ==> (#[trigger] self@.systems[k]).well_formed(),
            decreases n - i,
        {
            if !self.systems[i].is_well_formed() {
                return false;
            }
            i = i + 1;
        }
        true
    }

    /// Creates the systems of the simulation in `store`, in their order.
    /// `rewind` gives the last position of each new entity, `galaxy_orbit`
    /// and `belt_orbit` place the particles of a galaxy and of a belt (see
    /// the functions of [`creation`]); `zero` is the clear accumulator, and
    /// `unit` the mass and radius of the body at the centre of a galaxy.
    pub fn setup<
        R: Fn(S, V, V) -> V,
        G: Fn(&mut StdRng, S, u32, u32, S, V, V, V) -> (V, V),
        B: Fn(&mut StdRng, S, S, S, V, V, V) -> (V, V),
    >(
        &self,
        store: &mut EntityStore<V, S, C>,
        rng: &mut StdRng,
        zero: V,
        unit: S,
        rewind: &R,
        galaxy_orbit: &G,
        belt_orbit: &B,
    )
        requires
            self.well_formed(),
            forall|dt: S, position: V, velocity: V| rewind.requires((dt, position, velocity)),
            forall|r: &mut StdRng, g: S, arm: u32, n: u32, m: S, p: V, v: V, d: V|
                galaxy_orbit.requires((r, g, arm, n, m, p, v, d)),
            forall|r: &mut StdRng, g: S, l: S, m: S, p: V, v: V, d: V|
                belt_orbit.requires((r, g, l, m, p, v, d)),
        ensures
            systems_created(
                *rewind,
                *galaxy_orbit,
                *belt_orbit,
                self@.settings,
                zero,
                unit,
                self@.systems,
                old(store)@,
                final(store)@,
            ),
            final(store)@.bodies.len() == old(store)@.bodies.len() + bodies_of(self@.systems),
            final(store)@.particles.len() == old(store)@.particles.len() + particles_of(
                self@.systems,
            ),
            final(store)@.bodies.take(old(store)@.bodies.len() as int) == old(store)@.bodies,
            final(store)@.particles.take(old(store)@.particles.len() as int) == old(
                store,
            )@.particles,
    {
        let settings = self.settings();
        let n = self.systems.len();
        let mut i: usize = 0;
        while i < n
            invariant
                self.well_formed(),
                forall|dt: S, position: V, velocity: V| rewind.requires((dt, position, velocity)),
                forall|r: &mut StdRng, g: S, arm: u32, n: u32, m: S, p: V, v: V, d: V|
                    galaxy_orbit.requires((r, g, arm, n, m, p, v, d)),
                forall|r: &mut StdRng, g: S, l: S, m: S, p: V, v: V, d: V|
                    belt_orbit.requires((r, g, l, m, p, v, d)),
                settings == self@.settings,
                i <= n,
                n == self@.systems.len(),
                systems_created(
                    *rewind,
                    *galaxy_orbit,
                    *belt_orbit,
                    settings,
                    zero,
                    unit,
                    self@.systems.take(i as int),
                    old(store)@,
                    store@,
                ),
            decreases n - i,
        {
            let ghost mid = store@;
            let prefab = self.systems[i];
            match prefab {
                Prefab::Particle { initial_position, initial_velocity, color } => {
                    creation::create_particle(
                        initial_position,
                        initial_velocity,
                        color,
                        store,
                        &settings,
                        zero,
                        rewind,
                    );
                },
                Prefab::Body { mass, radius, color, initial_position, initial_velocity } => {
                    creation::create_body(
                        mass,
                        radius,
                        color,
                        initial_position,
                        initial_velocity,
                        store,
                        &settings,
                        zero,
                        rewind,
                    );
                },
                Prefab::Galaxy {
                    amount,
                    arms,
                    center_mass,
                    center_pos,
                    center_vel,
                    normal,
                    particle_color,
                    center_color,
                } => {
                    creation::create_galaxy(
                        amount,
                        arms,
                        center_mass,
                        center_pos,
                        center_vel,
                        normal,
                        particle_color,
                        center_color,
                        store,
                        &settings,
                        rng,
                        zero,
                        unit,
                        galaxy_orbit,
                        rewind,
                    );
                },
                Prefab::AsteroidBelt {
                    amount,
                    radius,
                    center_mass,
                    center_pos,
                    center_vel,
                    normal,
                    particle_color,
                } => {
                    creation::create_asteroid_belt(
                        amount,
                        radius,
                        center_mass,
                        center_pos,
                        center_vel,
                        normal,
                        particle_color,
                        store,
                        &settings,
                        rng,
                        zero,
                        belt_orbit,
                        rewind,
                    );
                },
            }
            proof {
                let longer = self@.systems.take(i + 1);
                assert(longer.drop_last() =~= self@.systems.take(i as int));
                assert(longer.last() == prefab);
                assert(prefab_created(
                    *rewind,
                    *galaxy_orbit,
                    *belt_orbit,
                    settings,
                    zero,
                    unit,
                    prefab,
                    mid,
                    store@,
                ));
            }
            i = i + 1;
        }
        proof {
            assert(self@.systems.take(n as int) =~= self@.systems);
            lemma_systems_created_counts(
                *rewind,
                *galaxy_orbit,
                *belt_orbit,
                settings,
                zero,
                unit,
                self@.systems,
                old(store)@,
                store@,
            );
        }
    }

    /// Advances the simulation by one tick: the body-body pass, the
    /// body-to-particle pass, then the integrator, each once (see the
    /// functions of [`gravity`] for the callbacks).
    pub fn tick<
        P: Fn(S, Body<V, S, C>, Body<V, S, C>) -> (V, V),
        A: Fn(S, Particle<V, C>, Body<V, S, C>) -> V,
        I: Fn(S, V, V, V) -> V,
    >(&self, store: &mut EntityStore<V, S, C>, zero: V, pair: &P, attract: &A, step: &I)
        requires
            forall|g: S, a: Body<V, S, C>, b: Body<V, S, C>| pair.requires((g, a, b)),
            forall|g: S, p: Particle<V, C>, b: Body<V, S, C>| attract.requires((g, p, b)),
            forall|dt: S, position: V, last: V, acceleration: V|
                step.requires((dt, position, last, acceleration)),
        ensures
            ticked(*pair, *attract, *step, self@.settings, zero, old(store)@, final(store)@),
            final(store)@.bodies.len() == old(store)@.bodies.len(),
            final(store)@.particles.len() == old(store)@.particles.len(),
    {
        let settings = self.settings();
        gravity::interact_bodies(&settings, store, pair);
        gravity::interact_particles_with_bodies(&settings, store, attract);
        let ghost second = store@;
        gravity::integrate(&settings, store, zero, step);
        proof {
            assert(forces_accumulated(*pair, *attract, settings.gravity_constant, old(store)@, second));
            lemma_tick_frame(*pair, *attract, *step, settings, zero, old(store)@, store@);
        }
    }
}

} // verus!
