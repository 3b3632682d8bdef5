//! Creation of entities: single ones, galaxies and asteroid belts.
//!
//! Where an entity goes and how fast it flies is arithmetic, and so a
//! callback. What is fixed here is how many entities a call creates, of which
//! kind, in which order, and from which arguments each one is made.

use vstd::prelude::*;
use rand::rngs::StdRng;
use rand_distr::{Distribution, Uniform};
use crate::components::{Body, Entities, EntityStore, Particle};
use crate::Settings;

verus! {

/// The generator `rand::rngs::StdRng`, taken as it is: nothing is known of
/// its state.
#[verifier::external_type_specification]
#[verifier::external_body]
pub struct ExStdRng(rand::rngs::StdRng);

/// Draws the arm of one particle with `Uniform::from(0..arms).sample(rng)`,
/// `Uniform` being the distribution that `rand_distr` hands on from `rand`.
/// Nothing of this is proved here. The distribution is made for the
/// half-open range from 0 to `arms` and refuses an empty one, so `arms` must
/// not be 0; a sample lies in the range.
#[verifier::external_body]
fn pick_arm(rng: &mut StdRng, arms: u32) -> (arm: u32)
    requires
        arms > 0,
    ensures
        arm < arms,
{
    Uniform::from(0..arms).sample(rng)
}

/// `particle` is a new particle at `initial_position`: the callback gave its
/// last position, and its accumulator is clear.
pub open spec fn particle_seeded<V, S, C, R: Fn(S, V, V) -> V>(
    rewind: R,
    time_step: S,
    zero: V,
    initial_position: V,
    initial_velocity: V,
    color: C,
    particle: Particle<V, C>,
) -> bool {
    &&& rewind.ensures((time_step, initial_position, initial_velocity), particle.last_pos.0)
    &&& particle == Particle::seeded(color, initial_position, particle.last_pos.0, zero)
}

/// `body` is a new body at `initial_position`: the callback gave its last
/// position, and its accumulator is clear.
pub open spec fn body_seeded<V, S, C, R: Fn(S, V, V) -> V>(
    rewind: R,
    time_step: S,
    zero: V,
    mass: S,
    radius: S,
    color: C,
    initial_position: V,
    initial_velocity: V,
    body: Body<V, S, C>,
) -> bool {
    &&& rewind.ensures((time_step, initial_position, initial_velocity), body.last_pos.0)
    &&& body == Body::seeded(mass, radius, color, initial_position, body.last_pos.0, zero)
}

/// What [`create_particle`] does: one particle more, behind the others.
pub open spec fn particle_created<V, S, C, R: Fn(S, V, V) -> V>(
    rewind: R,
    time_step: S,
    zero: V,
    initial_position: V,
    initial_velocity: V,
    color: C,
    before: Entities<V, S, C>,
    after: Entities<V, S, C>,
) -> bool {
    &&& after.bodies == before.bodies
    &&& after.particles.len() == before.particles.len() + 1
    &&& after.particles.drop_last() == before.particles
    &&& particle_seeded(
        rewind,
        time_step,
        zero,
        initial_position,
        initial_velocity,
        color,
        after.particles.last(),
    )
}

/// What [`create_body`] does: one body more, behind the others.
pub open spec fn body_created<V, S, C, R: Fn(S, V, V) -> V>(
    rewind: R,
    time_step: S,
    zero: V,
    mass: S,
    radius: S,
    color: C,
    initial_position: V,
    initial_velocity: V,
    before: Entities<V, S, C>,
    after: Entities<V, S, C>,
) -> bool {
    &&& after.particles == before.particles
    &&& after.bodies.len() == before.bodies.len() + 1
    &&& after.bodies.drop_last() == before.bodies
    &&& body_seeded(
        rewind,
        time_step,
        zero,
        mass,
        radius,
        color,
        initial_position,
        initial_velocity,
        after.bodies.last(),
    )
}

/// `particle` is a particle of a galaxy: the callback placed it on one of
/// the arms, and it was made from that place and velocity.
pub open spec fn galaxy_particle<
    V,
    S,
    C,
    O: Fn(&mut StdRng, S, u32, u32, S, V, V, V) -> (V, V),
    R: Fn(S, V, V) -> V,
>(
    orbit: O,
    rewind: R,
    settings: Settings<S>,
    zero: V,
    arms: u32,
    center_mass: S,
    center_pos: V,
    center_vel: V,
    normal: V,
    color: C,
    particle: Particle<V, C>,
) -> bool {
    exists|rng: &mut StdRng, arm: u32, position: V, velocity: V|
        arm < arms && #[trigger] orbit.ensures(
            (
                rng,
                settings.gravity_constant,
                arm,
                arms,
                center_mass,
                center_pos,
                center_vel,
                normal,
            ),
            (position, velocity),
        ) && particle_seeded(
            rewind,
            settings.time_step,
            zero,
            position,
            velocity,
            color,
            particle,
        )
}

/// What [`create_galaxy`] does: one body more, the centre, of mass and
/// radius `unit`, and `amount` particles more.
pub open spec fn galaxy_created<
    V,
    S,
    C,
    O: Fn(&mut StdRng, S, u32, u32, S, V, V, V) -> (V, V),
    R: Fn(S, V, V) -> V,
>(
    orbit: O,
    rewind: R,
    settings: Settings<S>,
    zero: V,
    unit: S,
    amount: u32,
    arms: u32,
    center_mass: S,
    center_pos: V,
    center_vel: V,
    normal: V,
    particle_color: C,
    center_color: C,
    before: Entities<V, S, C>,
    after: Entities<V, S, C>,
) -> bool {
    &&& after.bodies.len() == before.bodies.len() + 1
    &&& after.bodies.drop_last() == before.bodies
    &&& body_seeded(
        rewind,
        settings.time_step,
        zero,
        unit,
        unit,
        center_color,
        center_pos,
        center_vel,
        after.bodies.last(),
    )
    &&& after.particles.len() == before.particles.len() + amount
    &&& after.particles.take(before.particles.len() as int) == before.particles
    &&& forall|k: int|
        before.particles.len() <= k < after.particles.len() ==> galaxy_particle(
            orbit,
            rewind,
            settings,
            zero,
            arms,
            center_mass,
            center_pos,
            center_vel,
            normal,
            particle_color,
            #[trigger] after.particles[k],
        )
}

/// `particle` is a particle of a belt: the callback placed it on the circle,
/// and it was made from that place and velocity.
pub open spec fn belt_particle<
    V,
    S,
    C,
    O: Fn(&mut StdRng, S, S, S, V, V, V) -> (V, V),
    R: Fn(S, V, V) -> V,
>(
    orbit: O,
    rewind: R,
    settings: Settings<S>,
    zero: V,
    radius: S,
    center_mass: S,
    center_pos: V,
    center_vel: V,
    normal: V,
    color: C,
    particle: Particle<V, C>,
) -> bool {
    exists|rng: &mut StdRng, position: V, velocity: V|
        #[trigger] orbit.ensures(
            (rng, settings.gravity_constant, radius, center_mass, center_pos, center_vel, normal),
            (position, velocity),
        ) && particle_seeded(
            rewind,
            settings.time_step,
            zero,
            position,
            velocity,
            color,
            particle,
        )
}

/// What [`create_asteroid_belt`] does: `amount` particles more, and no
/// body.
pub open spec fn belt_created<
    V,
    S,
    C,
    O: Fn(&mut StdRng, S, S, S, V, V, V) -> (V, V),
    R: Fn(S, V, V) -> V,
>(
    orbit: O,
    rewind: R,
    settings: Settings<S>,
    zero: V,
    amount: u32,
    radius: S,
    center_mass: S,
    center_pos: V,
    center_vel: V,
    normal: V,
    particle_color: C,
    before: Entities<V, S, C>,
    after: Entities<V, S, C>,
) -> bool {
    &&& after.bodies == before.bodies
    &&& after.particles.len() == before.particles.len() + amount
    &&& after.particles.take(before.particles.len() as int) == before.particles
    &&& forall|k: int|
        before.particles.len() <= k < after.particles.len() ==> belt_particle(
            orbit,
            rewind,
            settings,
            zero,
            radius,
            center_mass,
            center_pos,
            center_vel,
            normal,
            particle_color,
            #[trigger] after.particles[k],
        )
}

/// Creates a particle at `initial_position`. `rewind` is called once with
/// the time step, the position and the velocity, and gives the position of
/// one tick earlier, `position - velocity * dt`: the integrator keeps no
/// velocity, so the two positions carry it. The accumulator starts at
/// `zero`.
pub fn create_particle<V: Copy, S: Copy, C: Copy, R: Fn(S, V, V) -> V>(
    initial_position: V,
    initial_velocity: V,
    color: C,
    store: &mut EntityStore<V, S, C>,
    settings: &Settings<S>,
    zero: V,
    rewind: &R,
)
    requires
        forall|dt: S, position: V, velocity: V| rewind.requires((dt, position, velocity)),
    ensures
        particle_created(
            *rewind,
            settings.time_step,
            zero,
            initial_position,
            initial_velocity,
            color,
            old(store)@,
            final(store)@,
        ),
{
    let last = rewind(settings.time_step, initial_position, initial_velocity);
    store.particles.push(Particle::seeded(color, initial_position, last, zero));
    assert(store.particles@.drop_last() =~= old(store).particles@);
}

/// Creates a body at `initial_position`. `rewind` is called once with the
/// time step, the position and the velocity, and gives the position of one
/// tick earlier, `position - velocity * dt`. The accumulator starts at
/// `zero`.
pub fn create_body<V: Copy, S: Copy, C: Copy, R: Fn(S, V, V) -> V>(
    mass: S,
    radius: S,
    color: C,
    initial_position: V,
    initial_velocity: V,
    store: &mut EntityStore<V, S, C>,
    settings: &Settings<S>,
    zero: V,
    rewind: &R,
)
    requires
        forall|dt: S, position: V, velocity: V| rewind.requires((dt, position, velocity)),
    ensures
        body_created(
            *rewind,
            settings.time_step,
            zero,
            mass,
            radius,
            color,
            initial_position,
            initial_velocity,
            old(store)@,
            final(store)@,
        ),
{
    let last = rewind(settings.time_step, initial_position, initial_velocity);
    store.bodies.push(Body::seeded(mass, radius, color, initial_position, last, zero));
    assert(store.bodies@.drop_last() =~= old(store).bodies@);
}

/// Creates a galaxy: first the body at its centre, of mass and radius
/// `unit`, at `center_pos` with `center_vel`; then `amount` particles. For
/// each particle an arm below `arms` is drawn from `rng`, and `orbit` is
/// called once with the generator, the gravitational constant, the arm,
/// `arms`, `center_mass`, `center_pos`, `center_vel` and `normal`; it gives
/// the particle's position and velocity.
///
/// `orbit` is meant to scatter the particle along its arm in the plane that
/// `normal` stands on, and to give it the velocity of a circular orbit
/// about `center_mass`. A galaxy with particles needs an arm: `arms` may be
/// 0 only where `amount` is.
pub fn create_galaxy<
    V: Copy,
    S: Copy,
    C: Copy,
    O: Fn(&mut StdRng, S, u32, u32, S, V, V, V) -> (V, V),
    R: Fn(S, V, V) -> V,
>(
    amount: u32,
    arms: u32,
    center_mass: S,
    center_pos: V,
    center_vel: V,
    normal: V,
    particle_color: C,
    center_color: C,
    store: &mut EntityStore<V, S, C>,
    settings: &Settings<S>,
    rng: &mut StdRng,
    zero: V,
    unit: S,
    orbit: &O,
    rewind: &R,
)
    requires
        amount > 0 ==> arms > 0,
        forall|r: &mut StdRng, g: S, arm: u32, n: u32, m: S, p: V, v: V, d: V|
            orbit.requires((r, g, arm, n, m, p, v, d)),
        forall|dt: S, position: V, velocity: V| rewind.requires((dt, position, velocity)),
    ensures
        galaxy_created(
            *orbit,
            *rewind,
            *settings,
            zero,
            unit,
            amount,
            arms,
            center_mass,
            center_pos,
            center_vel,
            normal,
            particle_color,
            center_color,
            old(store)@,
            final(store)@,
        ),
{
    let ghost before = store@;
    create_body(unit, unit, center_color, center_pos, center_vel, store, settings, zero, rewind);
    let ghost center = store@.bodies;
    let mut made: u32 = 0;
    while made < amount
        invariant
            amount > 0 ==> arms > 0,
            forall|r: &mut StdRng, g: S, arm: u32, n: u32, m: S, p: V, v: V, d: V|
                orbit.requires((r, g, arm, n, m, p, v, d)),
            forall|dt: S, position: V, velocity: V| rewind.requires((dt, position, velocity)),
            made <= amount,
            store@.bodies == center,
            store@.particles.len() == before.particles.len() + made,
            store@.particles.take(before.particles.len() as int) == before.particles,
            forall|k: int|
                before.particles.len() <= k < store@.particles.len() ==> galaxy_particle(
                    *orbit,
                    *rewind,
                    *settings,
                    zero,
                    arms,
                    center_mass,
                    center_pos,
                    center_vel,
                    normal,
                    particle_color,
                    #[trigger] store@.particles[k],
                ),
        decreases amount - made,
    {
        let ghost earlier = store@.particles;
        let arm = pick_arm(rng, arms);
        let (position, velocity) = orbit(
            rng,
            settings.gravity_constant,
            arm,
            arms,
            center_mass,
            center_pos,
            center_vel,
            normal,
        );
        create_particle(position, velocity, particle_color, store, settings, zero, rewind);
        made = made + 1;
        proof {
            let now = store@.particles;
            assert forall|k: int| before.particles.len() <= k < now.len() implies galaxy_particle(
                *orbit,
                *rewind,
                *settings,
                zero,
                arms,
                center_mass,
                center_pos,
                center_vel,
                normal,
                particle_color,
                #[trigger] now[k],
            ) by {
                if k < earlier.len() {
                    assert(now[k] == earlier[k]);
                }
            }
        }
    }
}

/// Creates an asteroid belt: `amount` particles and no body. For each
/// particle `orbit` is called once with the generator, the gravitational
/// constant, `radius`, `center_mass`, `center_pos`, `center_vel` and
/// `normal`; it gives the particle's position and velocity.
///
/// `orbit` is meant to put the particle on the circle of `radius` about
/// `center_pos` in the plane that `normal` stands on. The belt brings no
/// body of its own; the mass that it circles is created apart.
pub fn create_asteroid_belt<
    V: Copy,
    S: Copy,
    C: Copy,
    O: Fn(&mut StdRng, S, S, S, V, V, V) -> (V, V),
    R: Fn(S, V, V) -> V,
>(
    amount: u32,
    radius: S,
    center_mass: S,
    center_pos: V,
    center_vel: V,
    normal: V,
    particle_color: C,
    store: &mut EntityStore<V, S, C>,
    settings: &Settings<S>,
    rng: &mut StdRng,
    zero: V,
    orbit: &O,
    rewind: &R,
)
    requires
        forall|r: &mut StdRng, g: S, l: S, m: S, p: V, v: V, d: V|
            orbit.requires((r, g, l, m, p, v, d)),
        forall|dt: S, position: V, velocity: V| rewind.requires((dt, position, velocity)),
    ensures
        belt_created(
            *orbit,
            *rewind,
            *settings,
            zero,
            amount,
            radius,
            center_mass,
            center_pos,
            center_vel,
            normal,
            particle_color,
            old(store)@,
            final(store)@,
        ),
{
    let ghost before = store@;
    let mut made: u32 = 0;
    while made < amount
        invariant
            forall|r: &mut StdRng, g: S, l: S, m: S, p: V, v: V, d: V|
                orbit.requires((r, g, l, m, p, v, d)),
            forall|dt: S, position: V, velocity: V| rewind.requires((dt, position, velocity)),
            made <= amount,
            store@.bodies == before.bodies,
            store@.particles.len() == before.particles.len() + made,
            store@.particles.take(before.particles.len() as int) == before.particles,
            forall|k: int|
                before.particles.len() <= k < store@.particles.len() ==> belt_particle(
                    *orbit,
                    *rewind,
                    *settings,
                    zero,
                    radius,
                    center_mass,
                    center_pos,
                    center_vel,
                    normal,
                    particle_color,
                    #[trigger] store@.particles[k],
                ),
        decreases amount - made,
    {
        let ghost earlier = store@.particles;
        let (position, velocity) = orbit(
            rng,
            settings.gravity_constant,
            radius,
            center_mass,
            center_pos,
            center_vel,
            normal,
        );
        create_particle(position, velocity, particle_color, store, settings, zero, rewind);
        made = made + 1;
        proof {
            let now = store@.particles;
            assert forall|k: int| before.particles.len() <= k < now.len() implies belt_particle(
                *orbit,
                *rewind,
                *settings,
                zero,
                radius,
                center_mass,
                center_pos,
                center_vel,
                normal,
                particle_color,
                #[trigger] now[k],
            ) by {
                if k < earlier.len() {
                    assert(now[k] == earlier[k]);
                }
            }
        }
    }
}

} // verus!
